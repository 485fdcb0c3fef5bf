//! The per-user Internet-settings key: named values for the proxy switch,
//! the `host:port` server, the bypass list and the auto-config script.
use vstd::prelude::*;

use crate::text::{
    after_prefix, endpoint, find_prefixed, format_endpoint, lemma_endpoint_round_trip,
    parse_endpoint, push_char, split, split_endpoint,
};
use crate::{Autoproxy, AutoproxyView, Error, ErrorView, Sysproxy, SysproxyView};

verus! {

/// The values of the Internet-settings key that hold proxy settings.
#[derive(Debug, Clone, PartialEq, Eq)]
pub struct InternetSettings {
    /// `ProxyEnable`: nonzero when the manual proxy is on.
    pub proxy_enable: u32,
    /// `ProxyServer`: `host:port`, or empty when never set.
    pub proxy_server: String,
    /// `ProxyOverride`: the bypass list, separated by `;`.
    pub proxy_override: String,
    /// `AutoConfigURL`: the auto-config script.
    pub auto_config_url: String,
    /// `AutoDetect`: nonzero when the auto-config script is in use.
    pub auto_detect: u32,
}

pub struct InternetSettingsView {
    pub proxy_enable: u32,
    pub proxy_server: Seq<char>,
    pub proxy_override: Seq<char>,
    pub auto_config_url: Seq<char>,
    pub auto_detect: u32,
}

impl View for InternetSettings {
    type V = InternetSettingsView;

    open spec fn view(&self) -> InternetSettingsView {
        InternetSettingsView {
            proxy_enable: self.proxy_enable,
            proxy_server: self.proxy_server@,
            proxy_override: self.proxy_override@,
            auto_config_url: self.auto_config_url@,
            auto_detect: self.auto_detect,
        }
    }
}

/// The manual proxy that the key holds. An empty server reads as a disabled
/// proxy with no endpoint; a server that is not `host:port` is refused.
pub open spec fn read_manual(s: InternetSettingsView) -> core::result::Result<SysproxyView, ErrorView> {
    if s.proxy_server.len() == 0 {
        Ok(SysproxyView { enable: false, host: Seq::empty(), port: 0, bypass: s.proxy_override })
    } else {
        match split_endpoint(s.proxy_server) {
            Some((host, port)) => Ok(
                SysproxyView { enable: s.proxy_enable != 0, host, port, bypass: s.proxy_override },
            ),
            None => Err(ErrorView::ParseStr(s.proxy_server)),
        }
    }
}

/// The key after a manual proxy is written: the switch, the server and the
/// bypass list, all three every time.
pub open spec fn write_manual(s: InternetSettingsView, c: SysproxyView) -> InternetSettingsView {
    InternetSettingsView {
        proxy_enable: if c.enable { 1 } else { 0 },
        proxy_server: endpoint(c.host, c.port),
        proxy_override: c.bypass,
        ..s
    }
}

pub open spec fn read_auto(s: InternetSettingsView) -> AutoproxyView {
    AutoproxyView { enable: s.auto_detect != 0, url: s.auto_config_url }
}

/// The key after an auto-config setting is written; the URL is stored as
/// given, empty or not.
pub open spec fn write_auto(s: InternetSettingsView, a: AutoproxyView) -> InternetSettingsView {
    InternetSettingsView { auto_detect: if a.enable { 1 } else { 0 }, auto_config_url: a.url, ..s }
}

/// The four spaces that separate the columns of the registry tool's listing.
pub open spec fn gap() -> Seq<char> {
    seq![' ', ' ', ' ', ' ']
}

/// How the registry tool's listing begins the line of value `name` of
/// type `kind`.
pub open spec fn value_prefix(name: Seq<char>, kind: Seq<char>) -> Seq<char> {
    gap() + name + gap() + kind + gap()
}

/// A line without the carriage return that may end it.
pub open spec fn trim_cr(s: Seq<char>) -> Seq<char> {
    if s.len() > 0 && s.last() == '\r' {
        s.drop_last()
    } else {
        s
    }
}

/// The data of value `name` of type `kind` in the registry tool's listing
/// (`    name    kind    data`).
pub open spec fn listed_value(out: Seq<char>, name: Seq<char>, kind: Seq<char>) -> Option<Seq<char>> {
    match find_prefixed(split(out, '\n'), value_prefix(name, kind)) {
        Some(v) => Some(trim_cr(v)),
        None => None,
    }
}

/// The value of a hexadecimal digit, or -1 for any other character.
pub open spec fn hex_digit(c: char) -> int {
    if '0' <= c && c <= '9' {
        c as int - '0' as int
    } else if 'a' <= c && c <= 'f' {
        c as int - 'a' as int + 10
    } else if 'A' <= c && c <= 'F' {
        c as int - 'A' as int + 10
    } else {
        -1
    }
}

pub open spec fn all_hex(s: Seq<char>) -> bool {
    forall|i: int| 0 <= i < s.len() ==> hex_digit(#[trigger] s[i]) >= 0
}

/// The number that a string of hexadecimal digits spells.
pub open spec fn hex_value(s: Seq<char>) -> nat
    decreases s.len(),
{
    if s.len() == 0 {
        0
    } else {
        (hex_value(s.drop_last()) * 16 + hex_digit(s.last())) as nat
    }
}

/// A double word as the registry tool lists it: `0x` and one or more
/// hexadecimal digits whose value fits in 32 bits.
pub open spec fn dword_of(s: Seq<char>) -> Option<u32> {
    if s.len() > 2 && s[0] == '0' && s[1] == 'x' && all_hex(s.subrange(2, s.len() as int))
        && hex_value(s.subrange(2, s.len() as int)) <= u32::MAX {
        Some(hex_value(s.subrange(2, s.len() as int)) as u32)
    } else {
        None
    }
}

pub proof fn lemma_hex_prefix(s: Seq<char>, i: int)
    requires
        all_hex(s),
        0 <= i <= s.len(),
    ensures
        hex_value(s.subrange(0, i)) <= hex_value(s),
    decreases s.len(),
{
    if i < s.len() {
        assert(s.drop_last().subrange(0, i) =~= s.subrange(0, i));
        lemma_hex_prefix(s.drop_last(), i);
    } else {
        assert(s.subrange(0, i) =~= s);
    }
}

fn hex_digit_value(c: char) -> (r: Option<u64>)
    ensures
        match r {
            Some(d) => d == hex_digit(c) && d < 16,
            None => hex_digit(c) < 0,
        },
{
    if '0' <= c && c <= '9' {
        Some((c as u64) - 48)
    } else if 'a' <= c && c <= 'f' {
        Some((c as u64) - 87)
    } else if 'A' <= c && c <= 'F' {
        Some((c as u64) - 55)
    } else {
        None
    }
}

/// Reads a double word in the registry tool's `0x` form.
pub fn parse_dword(s: &str) -> (r: Option<u32>)
    ensures
        r == dword_of(s@),
{
    let n = s.unicode_len();
    if n <= 2 || s.get_char(0) != '0' || s.get_char(1) != 'x' {
        return None;
    }
    let digits = s.substring_char(2, n);
    let m = digits.unicode_len();
    let mut acc: u64 = 0;
    let mut i: usize = 0;
    while i < m
        invariant
            n == s@.len(),
            n > 2,
            s@[0] == '0',
            s@[1] == 'x',
            digits@ == s@.subrange(2, n as int),
            m == digits@.len(),
            i <= m,
            all_hex(digits@.subrange(0, i as int)),
            acc == hex_value(digits@.subrange(0, i as int)),
            acc <= u32::MAX,
        decreases m - i,
    {
        let c = digits.get_char(i);
        let ghost prefix = digits@.subrange(0, i as int + 1);
        assert(prefix.drop_last() =~= digits@.subrange(0, i as int));
        match hex_digit_value(c) {
            None => {
                assert(!all_hex(digits@)) by {
                    assert(hex_digit(digits@[i as int]) < 0);
                }
                return None;
            },
            Some(d) => {
                acc = acc * 16 + d;
            },
        }
        i = i + 1;
        if acc > 0xffff_ffff {
            assert(!all_hex(digits@) || hex_value(digits@) > u32::MAX) by {
                if all_hex(digits@) {
                    lemma_hex_prefix(digits@, i as int);
                }
            }
            return None;
        }
    }
    assert(digits@.subrange(0, m as int) =~= digits@);
    Some(acc as u32)
}

fn push_gap(s: &mut String)
    ensures
        final(s)@ == old(s)@ + gap(),
{
    push_char(s, ' ');
    push_char(s, ' ');
    push_char(s, ' ');
    push_char(s, ' ');
    assert(final(s)@ =~= old(s)@ + gap());
}

/// Reads the data of value `name` of type `kind` out of the registry
/// tool's listing.
pub fn parse_listed_value(out: &str, name: &str, kind: &str) -> (r: Option<String>)
    ensures
        match listed_value(out@, name@, kind@) {
            Some(v) => r is Some && r->Some_0@ == v,
            None => r is None,
        },
{
    let mut prefix = String::new();
    push_gap(&mut prefix);
    prefix.append(name);
    push_gap(&mut prefix);
    prefix.append(kind);
    push_gap(&mut prefix);
    assert(prefix@ =~= value_prefix(name@, kind@));
    match after_prefix(out, prefix.as_str()) {
        Some(v) => {
            let n = v.unicode_len();
            if n > 0 && v.as_str().get_char(n - 1) == '\r' {
                Some(String::from_str(v.as_str().substring_char(0, n - 1)))
            } else {
                Some(v)
            }
        },
        None => None,
    }
}

impl InternetSettings {
    pub fn get_manual(&self) -> (r: Result<Sysproxy, Error>)
        ensures
            crate::result_view(r) == read_manual(self@),
    {
        if self.proxy_server.unicode_len() == 0 {
            return Ok(
                Sysproxy {
                    enable: false,
                    host: String::new(),
                    port: 0,
                    bypass: self.proxy_override.clone(),
                },
            );
        }
        match parse_endpoint(self.proxy_server.as_str()) {
            Some((host, port)) => Ok(
                Sysproxy {
                    enable: self.proxy_enable != 0,
                    host,
                    port,
                    bypass: self.proxy_override.clone(),
                },
            ),
            None => Err(Error::ParseStr(self.proxy_server.clone())),
        }
    }

    pub fn set_manual(&mut self, c: &Sysproxy)
        ensures
            final(self)@ == write_manual(old(self)@, c@),
    {
        self.proxy_enable = if c.enable { 1 } else { 0 };
        self.proxy_server = format_endpoint(c.host.as_str(), c.port);
        self.proxy_override = c.bypass.clone();
    }

    pub fn get_auto(&self) -> (r: Autoproxy)
        ensures
            r@ == read_auto(self@),
    {
        Autoproxy { enable: self.auto_detect != 0, url: self.auto_config_url.clone() }
    }

    pub fn set_auto(&mut self, a: &Autoproxy)
        ensures
            final(self)@ == write_auto(old(self)@, a@),
    {
        self.auto_detect = if a.enable { 1 } else { 0 };
        self.auto_config_url = a.url.clone();
    }
}

/// A manual proxy written to the key reads back unchanged.
pub proof fn lemma_manual_round_trip(s: InternetSettingsView, c: SysproxyView)
    ensures
        read_manual(write_manual(s, c)) == Ok::<SysproxyView, ErrorView>(c),
{
    lemma_endpoint_round_trip(c.host, c.port);
    assert(endpoint(c.host, c.port).len() > 0);
}

} // verus!
