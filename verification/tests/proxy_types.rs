use spider_client::request::ProxyType;
use spider_client::request::default_some_true;

#[test]
fn canonical_strings() {
    assert_eq!(ProxyType::Residential.as_str(), "residential");
    assert_eq!(ProxyType::ResidentialFast.as_str(), "residential_fast");
    assert_eq!(ProxyType::ResidentialStatic.as_str(), "residential_static");
    assert_eq!(ProxyType::Mobile.as_str(), "mobile");
    assert_eq!(ProxyType::Isp.as_str(), "isp");
    assert_eq!(ProxyType::ResidentialPremium.as_str(), "residential_premium");
    assert_eq!(ProxyType::ResidentialCore.as_str(), "residential_core");
    assert_eq!(ProxyType::ResidentialPlus.as_str(), "residential_plus");
}

#[test]
fn round_trip_each_variant() {
    let all = [
        ProxyType::Residential,
        ProxyType::ResidentialFast,
        ProxyType::ResidentialStatic,
        ProxyType::Mobile,
        ProxyType::Isp,
        ProxyType::ResidentialPremium,
        ProxyType::ResidentialCore,
        ProxyType::ResidentialPlus,
    ];
    for p in all {
        assert_eq!(ProxyType::parse(p.as_str()), Some(p));
    }
}

#[test]
fn datacenter_alias_decodes_to_isp() {
    assert_eq!(ProxyType::parse("datacenter"), Some(ProxyType::Isp));
}

#[test]
fn unknown_pool_does_not_decode() {
    assert_eq!(ProxyType::parse("satellite"), None);
    assert_eq!(ProxyType::parse(""), None);
    assert_eq!(ProxyType::parse("Residential"), None);
}

#[test]
fn default_pool_is_isp() {
    assert_eq!(ProxyType::default(), ProxyType::Isp);
}

#[test]
fn page_navigation_default_is_true() {
    assert_eq!(default_some_true(), Some(true));
}
