use oidc_agent_rs::mytoken::{
    Capability, MgmtPerms, Profile, Restriction, Rotation, SettingsPerms, TokenInfoPerms,
};
use oidc_agent_rs::Error;

fn all_capabilities() -> Vec<Capability> {
    vec![
        Capability::AT,
        Capability::TokenInfo(TokenInfoPerms::All),
        Capability::TokenInfo(TokenInfoPerms::Introspect),
        Capability::TokenInfo(TokenInfoPerms::Subtokens),
        Capability::TokenInfo(TokenInfoPerms::History),
        Capability::MyTokenMgmt(MgmtPerms::All),
        Capability::MyTokenMgmt(MgmtPerms::List),
        Capability::MyTokenMgmt(MgmtPerms::Revoke),
        Capability::MyTokenMgmt(MgmtPerms::History),
        Capability::MyTokenCreate,
        Capability::Settings(SettingsPerms::All),
        Capability::Settings(SettingsPerms::Grants),
        Capability::Settings(SettingsPerms::Ssh),
        Capability::Settings(SettingsPerms::ReadAll),
        Capability::Settings(SettingsPerms::ReadGrants),
        Capability::Settings(SettingsPerms::ReadSsh),
    ]
}

#[test]
fn capability_round_trip_all_sixteen() {
    let caps = all_capabilities();
    assert_eq!(caps.len(), 16);
    for c in caps {
        assert_eq!(Capability::from_wire(c.as_str()), Some(c));
    }
}

#[test]
fn capability_wire_strings() {
    let wires: Vec<&str> = all_capabilities().iter().map(|c| c.as_str()).collect();
    assert_eq!(
        wires,
        vec![
            "AT",
            "tokeninfo",
            "tokeninfo:introspect",
            "tokeninfo:subtokens",
            "tokeninfo:history",
            "manage_mytoken",
            "manage_mytoken:list",
            "manage_mytoken:revoke",
            "manage_mytoken:history",
            "create_mytoken",
            "settings",
            "settings:grants",
            "settings:grants:ssh",
            "read@settings",
            "read@settings:grants",
            "read@settings:grants:ssh",
        ]
    );
}

#[test]
fn capability_unknown_strings_rejected() {
    for s in ["", "at", "AT ", "tokeninfo:", "settings:grants:sshx", "read@", "manage", "x"] {
        assert_eq!(Capability::from_wire(s), None);
    }
}

#[test]
fn rotation_without_trigger_fails() {
    let r = Rotation::builder().set_lifetime(10).set_auto_revoke().build();
    match r {
        Err(Error::OtherError(m)) => {
            assert_eq!(m, "Failed to build rotation object! on_AT or on_other must be set!")
        }
        _ => panic!("expected a build error"),
    }
    assert!(Rotation::builder().unset_on_AT().unset_on_other().build().is_err());
}

#[test]
fn rotation_with_trigger_builds() {
    let r = Rotation::builder().set_on_AT().set_lifetime(1000).build().unwrap();
    assert_eq!(r.on_AT(), Some(true));
    assert_eq!(r.lifetime(), Some(1000));
    assert_eq!(r.on_other(), None);
    assert!(Rotation::builder().set_on_other().build().is_ok());
    assert!(Rotation::builder().unset_on_AT().set_on_other().build().is_ok());
}

#[test]
fn rotation_json_has_set_fields_only() {
    let r = Rotation::builder().set_on_AT().set_lifetime(1000).build().unwrap();
    assert_eq!(r.to_json(), r#"{"on_AT":true,"lifetime":1000}"#);
}

#[test]
fn restriction_add_scope_joins_with_one_space() {
    let mut r = Restriction::new();
    r.add_scope("a");
    r.add_scope("b");
    assert_eq!(r.scope.as_deref(), Some("a b"));
    let mut t = Restriction::new();
    t.add_scope("  openid  ");
    assert_eq!(t.scope.as_deref(), Some("openid"));
}

#[test]
fn restriction_lists_merge_as_sets() {
    let r = Restriction::builder()
        .add_geoip_allow(&["pl", "de", "pl"])
        .add_geoip_allow(&["de", "fr"])
        .usages_AT(5)
        .build();
    assert_eq!(
        r.geoip_allow,
        Some(vec!["pl".to_string(), "de".to_string(), "fr".to_string()])
    );
    assert_eq!(r.usages_AT, Some(5));
}

#[test]
fn restriction_json() {
    let r = Restriction::builder()
        .nbf(-5)
        .exp(1700000000)
        .add_audiences(&["aud"])
        .usages_other(3)
        .build();
    assert_eq!(
        r.to_json(),
        r#"{"nbf":-5,"exp":1700000000,"audience":["aud"],"usages_other":3}"#
    );
    assert_eq!(Restriction::new().to_json(), "{}");
}

#[test]
fn profile_add_capabilities_twice_is_union() {
    let mut p = Profile::new();
    p.add_capabilities(&[Capability::AT, Capability::TokenInfo(TokenInfoPerms::All)]);
    p.add_capabilities(&[Capability::TokenInfo(TokenInfoPerms::All), Capability::MyTokenCreate]);
    assert_eq!(
        p.to_json(),
        r#"{"capabilities":["AT","tokeninfo","create_mytoken"]}"#
    );
}

#[test]
fn profile_restrictions_deduplicated_and_rotation_set() {
    let r = Restriction::builder().usages_AT(5).build();
    let rot = Rotation::builder().set_on_other().build().unwrap();
    let p = Profile::builder()
        .add_restrictions(&[r.clone(), r.clone()])
        .add_restrictions(&[r])
        .set_rotation(&rot)
        .build();
    assert_eq!(
        p.to_json(),
        r#"{"restrictions":[{"usages_AT":5}],"rotation":{"on_other":true}}"#
    );
    assert_eq!(Profile::new().to_json(), "{}");
}

#[test]
fn test_caps() {
    let cap = Capability::MyTokenCreate;
    let serialized = cap.as_str();
    let des = Capability::from_wire("tokeninfo:introspect").unwrap();
    println!("{}", serialized);
    println!("{:#?}", des);
    assert_eq!(serialized, "create_mytoken");
    assert_eq!(des, Capability::TokenInfo(TokenInfoPerms::Introspect));
}

#[test]
fn restriction_blank_scope_parts_add_nothing() {
    let mut r = Restriction::new();
    r.add_scope("   ");
    assert_eq!(r.scope, None);
    r.add_scope("a");
    r.add_scope("   ");
    r.add_scope("");
    r.add_scope(" b ");
    assert_eq!(r.scope.as_deref(), Some("a b"));
}
