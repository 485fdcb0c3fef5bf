use sysproxy::linux::{HostPort, ProxySchema};
use sysproxy::macos::{ServiceEndpoint, ServiceProxies};
use sysproxy::text::{format_endpoint, join_items, parse_endpoint, parse_port, split_items};
use sysproxy::windows::InternetSettings;
use sysproxy::{default_bypass, Autoproxy, Error, Platform, ProxyStore, Sysproxy};

fn linux_store() -> ProxyStore {
    let hp = HostPort { host: String::new(), port: 0 };
    ProxyStore::Linux(ProxySchema {
        mode: "none".to_string(),
        http: hp.clone(),
        https: hp.clone(),
        socks: hp,
        ignore_hosts: vec![],
        autoconfig_url: String::new(),
    })
}

fn mac_store(service: Option<&str>) -> ProxyStore {
    let e = ServiceEndpoint { enabled: false, server: String::new(), port: 0 };
    ProxyStore::MacOs(ServiceProxies {
        service: service.map(|s| s.to_string()),
        web: e.clone(),
        secure_web: e.clone(),
        socks: e,
        bypass_domains: vec![],
        auto_enabled: false,
        auto_url: String::new(),
    })
}

fn windows_store() -> ProxyStore {
    ProxyStore::Windows(InternetSettings {
        proxy_enable: 0,
        proxy_server: String::new(),
        proxy_override: String::new(),
        auto_config_url: String::new(),
        auto_detect: 0,
    })
}

fn stores() -> Vec<ProxyStore> {
    vec![windows_store(), mac_store(Some("Wi-Fi")), linux_store()]
}

fn manual(enable: bool, host: &str, port: u16, bypass: &str) -> Sysproxy {
    Sysproxy { enable, host: host.to_string(), port, bypass: bypass.to_string() }
}

#[test]
fn manual_scenario_on_every_platform() {
    for mut store in stores() {
        let c = manual(true, "127.0.0.1", 7890, "localhost");
        c.set_system_proxy(&mut store).unwrap();
        let got = Sysproxy::get_system_proxy(&store).unwrap();
        assert!(got.enable);
        assert_eq!(got.host, "127.0.0.1");
        assert_eq!(got.port, 7890);
    }
}

#[test]
fn auto_scenario_on_every_platform() {
    for mut store in stores() {
        let a = Autoproxy { enable: true, url: "http://example.com/proxy.pac".to_string() };
        a.set_auto_proxy(&mut store).unwrap();
        let got = Autoproxy::get_auto_proxy(&store).unwrap();
        assert!(got.enable);
        assert_eq!(got.url, "http://example.com/proxy.pac");
    }
}

#[test]
fn round_trip_keeps_the_whole_record() {
    for mut store in stores() {
        let c = manual(true, "proxy.example", 0, "localhost,127.0.0.1,,::1");
        c.set_system_proxy(&mut store).unwrap();
        assert_eq!(Sysproxy::get_system_proxy(&store).unwrap(), c);
    }
}

#[test]
fn setting_twice_reads_as_once() {
    for mut store in stores() {
        let c = manual(true, "10.0.0.1", 1080, "localhost");
        c.set_system_proxy(&mut store).unwrap();
        let once = store.clone();
        c.set_system_proxy(&mut store).unwrap();
        assert_eq!(store, once);
        let d = manual(false, "10.0.0.2", 1081, "");
        d.set_system_proxy(&mut store).unwrap();
        let once = store.clone();
        d.set_system_proxy(&mut store).unwrap();
        assert_eq!(store, once);
    }
}

#[test]
fn disable_then_enable_restores_endpoint() {
    let mut store = linux_store();
    manual(true, "127.0.0.1", 7890, "localhost").set_system_proxy(&mut store).unwrap();
    manual(false, "", 0, "").set_system_proxy(&mut store).unwrap();
    let mut got = Sysproxy::get_system_proxy(&store).unwrap();
    assert!(!got.enable);
    assert_eq!(got.host, "127.0.0.1");
    assert_eq!(got.port, 7890);
    got.enable = true;
    got.set_system_proxy(&mut store).unwrap();
    let back = Sysproxy::get_system_proxy(&store).unwrap();
    assert!(back.enable);
    assert_eq!(back.host, "127.0.0.1");
    assert_eq!(back.port, 7890);
}

#[test]
fn disabled_record_is_written_whole_outside_linux() {
    for mut store in [windows_store(), mac_store(Some("Ethernet"))] {
        manual(true, "127.0.0.1", 7890, "localhost").set_system_proxy(&mut store).unwrap();
        let off = manual(false, "x", 2, "");
        off.set_system_proxy(&mut store).unwrap();
        assert_eq!(Sysproxy::get_system_proxy(&store).unwrap(), off);
        let blank = manual(false, "", 0, "");
        blank.set_system_proxy(&mut store).unwrap();
        assert_eq!(Sysproxy::get_system_proxy(&store).unwrap(), blank);
    }
}

#[test]
fn linux_disable_keeps_endpoint_only() {
    let mut store = linux_store();
    manual(true, "h", 1, "a,b").set_system_proxy(&mut store).unwrap();
    manual(false, "other", 2, "c").set_system_proxy(&mut store).unwrap();
    match &store {
        ProxyStore::Linux(g) => {
            assert_eq!(g.mode, "none");
            assert_eq!(g.https.host, "h");
            assert_eq!(g.socks.port, 1);
            assert_eq!(g.ignore_hosts, vec!["c".to_string()]);
        }
        _ => unreachable!(),
    }
}

#[test]
fn linux_auto_and_manual_share_the_mode() {
    let mut store = linux_store();
    manual(true, "h", 1, "").set_system_proxy(&mut store).unwrap();
    Autoproxy { enable: true, url: "u".to_string() }.set_auto_proxy(&mut store).unwrap();
    assert!(!Sysproxy::get_system_proxy(&store).unwrap().enable);
    assert!(Autoproxy::get_auto_proxy(&store).unwrap().enable);
    Autoproxy { enable: false, url: "v".to_string() }.set_auto_proxy(&mut store).unwrap();
    let a = Autoproxy::get_auto_proxy(&store).unwrap();
    assert!(!a.enable);
    assert_eq!(a.url, "v");
    match &store {
        ProxyStore::Linux(g) => assert_eq!(g.mode, "none"),
        _ => unreachable!(),
    }
    manual(true, "h", 1, "").set_system_proxy(&mut store).unwrap();
    manual(false, "h", 1, "").set_system_proxy(&mut store).unwrap();
    match &store {
        ProxyStore::Linux(g) => assert_eq!(g.mode, "none"),
        _ => unreachable!(),
    }
}

#[test]
fn capability_matches_operations() {
    let c = manual(true, "h", 1, "");
    let a = Autoproxy { enable: true, url: String::new() };
    for p in [Platform::Windows, Platform::MacOs, Platform::Linux] {
        assert!(Sysproxy::is_support(p));
        assert!(Autoproxy::is_support(p));
    }
    for mut store in stores() {
        assert!(Sysproxy::is_support(store.platform()));
        assert!(!matches!(Sysproxy::get_system_proxy(&store), Err(Error::NotSupport)));
        assert!(!matches!(c.set_system_proxy(&mut store), Err(Error::NotSupport)));
        assert!(!matches!(Autoproxy::get_auto_proxy(&store), Err(Error::NotSupport)));
        assert!(!matches!(a.set_auto_proxy(&mut store), Err(Error::NotSupport)));
    }
    let mut other = ProxyStore::Other;
    assert!(!Sysproxy::is_support(other.platform()));
    assert!(!Autoproxy::is_support(Platform::Other));
    assert!(matches!(Sysproxy::get_system_proxy(&other), Err(Error::NotSupport)));
    assert!(matches!(c.set_system_proxy(&mut other), Err(Error::NotSupport)));
    assert!(matches!(Autoproxy::get_auto_proxy(&other), Err(Error::NotSupport)));
    assert!(matches!(a.set_auto_proxy(&mut other), Err(Error::NotSupport)));
    assert_eq!(other, ProxyStore::Other);
}

#[test]
fn missing_service_fails_without_writing() {
    let mut store = mac_store(None);
    let before = store.clone();
    let c = manual(true, "127.0.0.1", 7890, "localhost");
    assert!(matches!(c.set_system_proxy(&mut store), Err(Error::NetworkInterface)));
    assert_eq!(store, before);
    assert!(matches!(Sysproxy::get_system_proxy(&store), Err(Error::NetworkInterface)));
    let a = Autoproxy { enable: true, url: "http://example.com/proxy.pac".to_string() };
    assert!(matches!(a.set_auto_proxy(&mut store), Err(Error::NetworkInterface)));
    assert_eq!(store, before);
    assert!(matches!(Autoproxy::get_auto_proxy(&store), Err(Error::NetworkInterface)));
}

#[test]
fn default_bypass_literals() {
    assert_eq!(
        default_bypass(Platform::Windows),
        "localhost;127.*;192.168.*;10.*;172.16.*;172.17.*;172.18.*;172.19.*;172.20.*;172.21.*;172.22.*;172.23.*;172.24.*;172.25.*;172.26.*;172.27.*;172.28.*;172.29.*;172.30.*;172.31.*;<local>"
    );
    assert_eq!(
        default_bypass(Platform::MacOs),
        "127.0.0.1,192.168.0.0/16,10.0.0.0/8,172.16.0.0/12,localhost,*.local,*.crashlytics.com,<local>"
    );
    assert_eq!(
        default_bypass(Platform::Linux),
        "localhost,127.0.0.1,192.168.0.0/16,10.0.0.0/8,172.16.0.0/12,::1"
    );
    assert_eq!(default_bypass(Platform::Other), "");
}

#[test]
fn windows_server_string() {
    let mut store = windows_store();
    manual(true, "127.0.0.1", 7890, "localhost;<local>").set_system_proxy(&mut store).unwrap();
    match &store {
        ProxyStore::Windows(w) => {
            assert_eq!(w.proxy_enable, 1);
            assert_eq!(w.proxy_server, "127.0.0.1:7890");
            assert_eq!(w.proxy_override, "localhost;<local>");
        }
        _ => unreachable!(),
    }
}

#[test]
fn windows_empty_server_reads_as_disabled() {
    let store = ProxyStore::Windows(InternetSettings {
        proxy_enable: 1,
        proxy_server: String::new(),
        proxy_override: "x".to_string(),
        auto_config_url: String::new(),
        auto_detect: 0,
    });
    assert_eq!(Sysproxy::get_system_proxy(&store).unwrap(), manual(false, "", 0, "x"));
}

#[test]
fn windows_bad_server_is_a_parse_error() {
    for bad in ["localhost", "host:", "host:99999", "host:12a", "a:b:"] {
        let store = ProxyStore::Windows(InternetSettings {
            proxy_enable: 1,
            proxy_server: bad.to_string(),
            proxy_override: String::new(),
            auto_config_url: String::new(),
            auto_detect: 0,
        });
        match Sysproxy::get_system_proxy(&store) {
            Err(Error::ParseStr(s)) => assert_eq!(s, bad),
            other => panic!("unexpected {:?}", other),
        }
    }
}

#[test]
fn windows_ipv6_host_splits_at_last_colon() {
    let store = ProxyStore::Windows(InternetSettings {
        proxy_enable: 1,
        proxy_server: "::1:8080".to_string(),
        proxy_override: String::new(),
        auto_config_url: String::new(),
        auto_detect: 0,
    });
    assert_eq!(Sysproxy::get_system_proxy(&store).unwrap(), manual(true, "::1", 8080, ""));
}

#[test]
fn windows_auto_with_empty_url() {
    let mut store = windows_store();
    Autoproxy { enable: true, url: String::new() }.set_auto_proxy(&mut store).unwrap();
    let a = Autoproxy::get_auto_proxy(&store).unwrap();
    assert!(a.enable);
    assert_eq!(a.url, "");
}

#[test]
fn port_zero_and_empty_host_are_kept() {
    for mut store in stores() {
        let c = manual(true, "", 0, "");
        c.set_system_proxy(&mut store).unwrap();
        assert_eq!(Sysproxy::get_system_proxy(&store).unwrap(), c);
    }
}

#[test]
fn ports_in_decimal() {
    assert_eq!(parse_port("7890"), Some(7890));
    assert_eq!(parse_port("0"), Some(0));
    assert_eq!(parse_port("007"), Some(7));
    assert_eq!(parse_port("65535"), Some(65535));
    assert_eq!(parse_port("65536"), None);
    assert_eq!(parse_port("1000000"), None);
    assert_eq!(parse_port(""), None);
    assert_eq!(parse_port("-1"), None);
    assert_eq!(format_endpoint("h", 65535), "h:65535");
    assert_eq!(format_endpoint("", 0), ":0");
    assert_eq!(parse_endpoint("h:80"), Some(("h".to_string(), 80)));
}

#[test]
fn lists_split_and_join() {
    assert_eq!(split_items("a,b,,c", ','), vec!["a", "b", "", "c"]);
    assert_eq!(split_items("", ','), vec![""]);
    assert_eq!(join_items(&vec!["x".to_string(), "y".to_string()], ';'), "x;y");
    assert_eq!(join_items(&vec![], ','), "");
}

#[test]
fn empty_bypass_is_an_empty_list() {
    for mut store in [mac_store(Some("Wi-Fi")), linux_store()] {
        manual(true, "h", 1, "").set_system_proxy(&mut store).unwrap();
        match &store {
            ProxyStore::MacOs(m) => assert!(m.bypass_domains.is_empty()),
            ProxyStore::Linux(g) => assert!(g.ignore_hosts.is_empty()),
            _ => unreachable!(),
        }
        assert_eq!(Sysproxy::get_system_proxy(&store).unwrap().bypass, "");
    }
}

#[test]
fn mac_bypass_is_stored_per_domain() {
    let mut store = mac_store(Some("Wi-Fi"));
    manual(true, "h", 1, "localhost,*.local").set_system_proxy(&mut store).unwrap();
    match &store {
        ProxyStore::MacOs(m) => {
            assert_eq!(m.bypass_domains, vec!["localhost".to_string(), "*.local".to_string()]);
            assert!(m.secure_web.enabled && m.socks.enabled);
            assert_eq!(m.socks.server, "h");
        }
        _ => unreachable!(),
    }
}
