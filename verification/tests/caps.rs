use webdriver_bidi::caps::{BrowserCap, CapSet};

#[test]
fn all_permits_everything() {
    let c = CapSet::all();
    assert!(c.require(BrowserCap::Navigate).is_ok());
    assert!(c.require(BrowserCap::Script).is_ok());
    assert!(c.require(BrowserCap::Input).is_ok());
    assert!(c.require(BrowserCap::Read).is_ok());
}

#[test]
fn restricted_set_denies_absent_cap() {
    let c = CapSet::from_list(vec![BrowserCap::Navigate, BrowserCap::Read]);
    assert!(c.require(BrowserCap::Navigate).is_ok());
    let e = c.require(BrowserCap::Script).unwrap_err();
    assert!(e.contains("browser:script"));
}

#[test]
fn empty_set_denies_everything() {
    let c = CapSet::from_list(vec![]);
    assert!(c.require(BrowserCap::Read).is_err());
}

#[test]
fn ids_match_act_toml_declarations() {
    assert_eq!(BrowserCap::Navigate.id(), "browser:navigate");
    assert_eq!(BrowserCap::Script.id(), "browser:script");
    assert_eq!(BrowserCap::Input.id(), "browser:input");
    assert_eq!(BrowserCap::Read.id(), "browser:read");
}

#[test]
fn deserializes_from_kebab_case_names() {
    let names: Vec<String> =
        serde_json::from_str(r#"["navigate","read"]"#).expect("kebab-case names parse");
    let list: Vec<BrowserCap> = names
        .iter()
        .map(|n| BrowserCap::from_name(n).expect("known name"))
        .collect();
    assert_eq!(list, vec![BrowserCap::Navigate, BrowserCap::Read]);
}

#[test]
fn unknown_names_are_refused() {
    assert_eq!(BrowserCap::from_name("Navigate"), None);
    assert_eq!(BrowserCap::from_name("browser:read"), None);
    assert_eq!(BrowserCap::from_name(""), None);
    assert_eq!(BrowserCap::from_name("script"), Some(BrowserCap::Script));
    assert_eq!(BrowserCap::from_name("input"), Some(BrowserCap::Input));
}

#[test]
fn denial_message_is_exact() {
    let c = CapSet::from_list(vec![BrowserCap::Read]);
    assert_eq!(
        c.require(BrowserCap::Input).unwrap_err(),
        "capability browser:input is not granted to this session"
    );
}

#[test]
fn duplicates_in_the_list_are_harmless() {
    let c = CapSet::from_list(vec![BrowserCap::Read, BrowserCap::Read]);
    assert!(c.grants(BrowserCap::Read));
    assert!(!c.grants(BrowserCap::Navigate));
}
