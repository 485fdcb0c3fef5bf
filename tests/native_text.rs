use sysproxy::linux::{format_list, parse_list, quote, unquote, HostPort, ProxySchema, SettingsText};
use sysproxy::macos::{parse_auto_output, parse_bypass_output, parse_endpoint_output};
use sysproxy::text::{field, starts_with_str};
use sysproxy::windows::{parse_dword, parse_listed_value};
use sysproxy::Error;

#[test]
fn networksetup_web_proxy_listing() {
    let out = "Enabled: Yes\nServer: 127.0.0.1\nPort: 7890\nAuthenticated Proxy Enabled: 0";
    let e = parse_endpoint_output(out).unwrap();
    assert!(e.enabled);
    assert_eq!(e.server, "127.0.0.1");
    assert_eq!(e.port, 7890);
    let off = parse_endpoint_output("Enabled: No\nServer: \nPort: 0\n").unwrap();
    assert!(!off.enabled);
    assert_eq!(off.server, "");
    assert_eq!(off.port, 0);
}

#[test]
fn networksetup_listing_without_port_is_refused() {
    for bad in ["Enabled: Yes\nServer: h", "Enabled: Yes\nServer: h\nPort: x", ""] {
        match parse_endpoint_output(bad) {
            Err(Error::ParseStr(s)) => assert_eq!(s, bad),
            other => panic!("unexpected {:?}", other),
        }
    }
}

#[test]
fn networksetup_auto_listing() {
    let a = parse_auto_output("URL: http://example.com/proxy.pac\nEnabled: Yes").unwrap();
    assert!(a.enable);
    assert_eq!(a.url, "http://example.com/proxy.pac");
    assert!(matches!(parse_auto_output("Enabled: No"), Err(Error::ParseStr(_))));
}

#[test]
fn networksetup_bypass_listing() {
    assert_eq!(parse_bypass_output("localhost\n*.local\n"), vec!["localhost", "*.local"]);
    assert!(parse_bypass_output("There aren't any bypass domains set on Wi-Fi.").is_empty());
}

#[test]
fn fields_take_the_first_matching_line() {
    assert_eq!(field("A: 1\nB: 2\nB: 3", "B"), Some("2".to_string()));
    assert_eq!(field("AB: 1", "A"), None);
    assert_eq!(field("A:1", "A"), None);
    assert!(starts_with_str("Enabled: Yes", "Enabled: "));
    assert!(!starts_with_str("En", "Enabled"));
}

#[test]
fn settings_values_are_quoted() {
    assert_eq!(quote("manual"), "'manual'");
    assert_eq!(unquote("'manual'"), Some("manual".to_string()));
    assert_eq!(unquote("''"), Some(String::new()));
    assert_eq!(unquote("'"), None);
    assert_eq!(unquote("manual"), None);
}

#[test]
fn settings_lists() {
    let items = vec!["localhost".to_string(), "127.0.0.0/8".to_string(), "::1".to_string()];
    assert_eq!(format_list(&items), "['localhost','127.0.0.0/8','::1']");
    assert_eq!(parse_list("['localhost', '127.0.0.0/8', '::1']"), Some(items.clone()));
    assert_eq!(parse_list(&format_list(&items)), Some(items));
    assert_eq!(parse_list("@as []"), Some(vec![]));
    assert_eq!(parse_list("[]"), Some(vec![]));
    assert_eq!(format_list(&vec![]), "[]");
    assert_eq!(parse_list("['a', b]"), None);
    assert_eq!(parse_list("a"), None);
}

fn sample_text() -> SettingsText {
    SettingsText {
        mode: "'manual'".to_string(),
        http_host: "'127.0.0.1'".to_string(),
        http_port: "7890".to_string(),
        https_host: "''".to_string(),
        https_port: "0".to_string(),
        socks_host: "'s'".to_string(),
        socks_port: "1080".to_string(),
        ignore_hosts: "['localhost', '::1']".to_string(),
        autoconfig_url: "''".to_string(),
    }
}

#[test]
fn settings_text_parses_into_schema() {
    let g = sample_text().parse().unwrap();
    assert_eq!(g.mode, "manual");
    assert_eq!(g.http, HostPort { host: "127.0.0.1".to_string(), port: 7890 });
    assert_eq!(g.https, HostPort { host: String::new(), port: 0 });
    assert_eq!(g.socks.port, 1080);
    assert_eq!(g.ignore_hosts, vec!["localhost".to_string(), "::1".to_string()]);
    let again: ProxySchema = g.to_text().parse().unwrap();
    assert_eq!(again, g);
    assert_eq!(g.to_text().http_port, "7890");
    assert_eq!(g.to_text().mode, "'manual'");
}

#[test]
fn settings_text_reports_the_first_bad_value() {
    let mut t = sample_text();
    t.https_port = "65536".to_string();
    t.autoconfig_url = "no quotes".to_string();
    match t.parse() {
        Err(Error::ParseStr(s)) => assert_eq!(s, "65536"),
        other => panic!("unexpected {:?}", other),
    }
    let mut t = sample_text();
    t.ignore_hosts = "localhost".to_string();
    match t.parse() {
        Err(Error::ParseStr(s)) => assert_eq!(s, "localhost"),
        other => panic!("unexpected {:?}", other),
    }
}

#[test]
fn registry_listing_values() {
    let out = "\r\nHKEY_CURRENT_USER\\Software\\Microsoft\\Windows\\CurrentVersion\\Internet Settings\r\n    ProxyServer    REG_SZ    127.0.0.1:7890\r\n\r\n";
    assert_eq!(
        parse_listed_value(out, "ProxyServer", "REG_SZ"),
        Some("127.0.0.1:7890".to_string())
    );
    assert_eq!(parse_listed_value(out, "ProxyServer", "REG_DWORD"), None);
    assert_eq!(parse_listed_value(out, "ProxyOverride", "REG_SZ"), None);
    let dw = "    ProxyEnable    REG_DWORD    0x1\n";
    assert_eq!(parse_listed_value(dw, "ProxyEnable", "REG_DWORD"), Some("0x1".to_string()));
    let spaced = "    AutoConfigURL    REG_SZ    a b\n";
    assert_eq!(parse_listed_value(spaced, "AutoConfigURL", "REG_SZ"), Some("a b".to_string()));
}

#[test]
fn registry_dwords() {
    assert_eq!(parse_dword("0x1"), Some(1));
    assert_eq!(parse_dword("0x0"), Some(0));
    assert_eq!(parse_dword("0xff"), Some(255));
    assert_eq!(parse_dword("0xFFFFFFFF"), Some(u32::MAX));
    assert_eq!(parse_dword("0x100000000"), None);
    assert_eq!(parse_dword("0x"), None);
    assert_eq!(parse_dword("1"), None);
    assert_eq!(parse_dword("0xg"), None);
}
