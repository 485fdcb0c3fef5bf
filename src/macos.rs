//! Proxy settings of the active network service (Wi-Fi, Ethernet, ...):
//! web, secure-web and SOCKS endpoints, the bypass domains and the
//! auto-proxy URL. The service itself is found by the caller.
use vstd::prelude::*;

use crate::text::{
    field, field_of, join, join_items, lemma_join_list, list_items_of, list_of, parse_port, port_of,
    same_text, split, split_items, starts_with, starts_with_str,
};
use crate::{Autoproxy, AutoproxyView, Error, ErrorView, Sysproxy, SysproxyView};

verus! {

/// One protocol's proxy on a network service.
#[derive(Debug, Clone, PartialEq, Eq)]
pub struct ServiceEndpoint {
    pub enabled: bool,
    pub server: String,
    pub port: u16,
}

pub struct ServiceEndpointView {
    pub enabled: bool,
    pub server: Seq<char>,
    pub port: u16,
}

impl View for ServiceEndpoint {
    type V = ServiceEndpointView;

    open spec fn view(&self) -> ServiceEndpointView {
        ServiceEndpointView { enabled: self.enabled, server: self.server@, port: self.port }
    }
}

/// The proxy settings of the active network service, if one was found.
#[derive(Debug, Clone, PartialEq, Eq)]
pub struct ServiceProxies {
    /// The active service, as the caller's discovery found it.
    pub service: Option<String>,
    pub web: ServiceEndpoint,
    pub secure_web: ServiceEndpoint,
    pub socks: ServiceEndpoint,
    /// One entry per bypassed domain.
    pub bypass_domains: Vec<String>,
    pub auto_enabled: bool,
    pub auto_url: String,
}

pub struct ServiceProxiesView {
    pub service: Option<Seq<char>>,
    pub web: ServiceEndpointView,
    pub secure_web: ServiceEndpointView,
    pub socks: ServiceEndpointView,
    pub bypass_domains: Seq<Seq<char>>,
    pub auto_enabled: bool,
    pub auto_url: Seq<char>,
}

impl View for ServiceProxies {
    type V = ServiceProxiesView;

    open spec fn view(&self) -> ServiceProxiesView {
        ServiceProxiesView {
            service: match self.service {
                Some(s) => Some(s@),
                None => None,
            },
            web: self.web@,
            secure_web: self.secure_web@,
            socks: self.socks@,
            bypass_domains: self.bypass_domains.deep_view(),
            auto_enabled: self.auto_enabled,
            auto_url: self.auto_url@,
        }
    }
}

/// The bypass list's separator on this platform.
pub const SEPARATOR: char = ',';

/// The manual proxy, as the web proxy of the active service shows it.
pub open spec fn read_manual(m: ServiceProxiesView) -> core::result::Result<SysproxyView, ErrorView> {
    match m.service {
        None => Err(ErrorView::NetworkInterface),
        Some(_) => Ok(
            SysproxyView {
                enable: m.web.enabled,
                host: m.web.server,
                port: m.web.port,
                bypass: join(m.bypass_domains, SEPARATOR),
            },
        ),
    }
}

/// One protocol's proxy after a manual proxy is written: the switch, the
/// host and the port of the record, whether it is on or off.
pub open spec fn write_endpoint(c: SysproxyView) -> ServiceEndpointView {
    ServiceEndpointView { enabled: c.enable, server: c.host, port: c.port }
}

/// The settings after a manual proxy is written to all three protocols.
pub open spec fn write_manual(m: ServiceProxiesView, c: SysproxyView) -> core::result::Result<
    ServiceProxiesView,
    ErrorView,
> {
    match m.service {
        None => Err(ErrorView::NetworkInterface),
        Some(_) => Ok(
            ServiceProxiesView {
                web: write_endpoint(c),
                secure_web: write_endpoint(c),
                socks: write_endpoint(c),
                bypass_domains: list_of(c.bypass, SEPARATOR),
                ..m
            },
        ),
    }
}

pub open spec fn read_auto(m: ServiceProxiesView) -> core::result::Result<AutoproxyView, ErrorView> {
    match m.service {
        None => Err(ErrorView::NetworkInterface),
        Some(_) => Ok(AutoproxyView { enable: m.auto_enabled, url: m.auto_url }),
    }
}

pub open spec fn write_auto(m: ServiceProxiesView, a: AutoproxyView) -> core::result::Result<
    ServiceProxiesView,
    ErrorView,
> {
    match m.service {
        None => Err(ErrorView::NetworkInterface),
        Some(_) => Ok(ServiceProxiesView { auto_enabled: a.enable, auto_url: a.url, ..m }),
    }
}

/// One protocol's proxy as `networksetup` prints it: `Enabled: Yes` or
/// `No`, `Server: host` and `Port: n` lines.
pub open spec fn endpoint_output(out: Seq<char>) -> Option<ServiceEndpointView> {
    match (field_of(out, "Enabled"@), field_of(out, "Server"@), field_of(out, "Port"@)) {
        (Some(e), Some(server), Some(p)) => match port_of(p) {
            Some(port) => Some(ServiceEndpointView { enabled: e == "Yes"@, server, port }),
            None => None,
        },
        _ => None,
    }
}

/// The auto-proxy setting as `networksetup` prints it: `URL: url` and
/// `Enabled: Yes` or `No` lines.
pub open spec fn auto_output(out: Seq<char>) -> Option<AutoproxyView> {
    match (field_of(out, "Enabled"@), field_of(out, "URL"@)) {
        (Some(e), Some(url)) => Some(AutoproxyView { enable: e == "Yes"@, url }),
        _ => None,
    }
}

/// A line of the bypass-domain listing that names a domain: not empty and
/// not the note that there are none.
pub open spec fn is_domain_line(line: Seq<char>) -> bool {
    line.len() > 0 && !starts_with(line, "There aren't any"@)
}

pub open spec fn domain_lines(lines: Seq<Seq<char>>) -> Seq<Seq<char>>
    decreases lines.len(),
{
    if lines.len() == 0 {
        Seq::empty()
    } else if is_domain_line(lines.last()) {
        domain_lines(lines.drop_last()).push(lines.last())
    } else {
        domain_lines(lines.drop_last())
    }
}

/// The bypass domains as `networksetup` lists them, one per line.
pub open spec fn bypass_output(out: Seq<char>) -> Seq<Seq<char>> {
    domain_lines(split(out, '\n'))
}

/// Reads one protocol's proxy out of `networksetup`'s listing.
pub fn parse_endpoint_output(out: &str) -> (r: Result<ServiceEndpoint, Error>)
    ensures
        match endpoint_output(out@) {
            Some(e) => r is Ok && r->Ok_0@ == e,
            None => r is Err && r->Err_0@ == ErrorView::ParseStr(out@),
        },
{
    let enabled = field(out, "Enabled");
    let server = field(out, "Server");
    let port = field(out, "Port");
    match (enabled, server, port) {
        (Some(e), Some(server), Some(p)) => match parse_port(p.as_str()) {
            Some(port) => Ok(ServiceEndpoint { enabled: same_text(e.as_str(), "Yes"), server, port }),
            None => Err(Error::ParseStr(String::from_str(out))),
        },
        _ => Err(Error::ParseStr(String::from_str(out))),
    }
}

/// Reads the auto-proxy setting out of `networksetup`'s listing.
pub fn parse_auto_output(out: &str) -> (r: Result<Autoproxy, Error>)
    ensures
        match auto_output(out@) {
            Some(a) => r is Ok && r->Ok_0@ == a,
            None => r is Err && r->Err_0@ == ErrorView::ParseStr(out@),
        },
{
    match (field(out, "Enabled"), field(out, "URL")) {
        (Some(e), Some(url)) => Ok(Autoproxy { enable: same_text(e.as_str(), "Yes"), url }),
        _ => Err(Error::ParseStr(String::from_str(out))),
    }
}

/// Reads the bypass domains out of `networksetup`'s listing.
pub fn parse_bypass_output(out: &str) -> (r: Vec<String>)
    ensures
        r.deep_view() == bypass_output(out@),
{
    let lines = split_items(out, '\n');
    let ghost all = lines.deep_view();
    let mut r: Vec<String> = Vec::new();
    let mut i: usize = 0;
    while i < lines.len()
        invariant
            all == lines.deep_view(),
            all == split(out@, '\n'),
            i <= lines.len(),
            r.deep_view() == domain_lines(all.subrange(0, i as int)),
        decreases lines.len() - i,
    {
        let ghost before = r.deep_view();
        let ghost upto = all.subrange(0, i as int + 1);
        assert(upto.drop_last() =~= all.subrange(0, i as int));
        assert(upto.last() == lines[i as int]@);
        let line = lines[i].as_str();
        if line.unicode_len() > 0 && !starts_with_str(line, "There aren't any") {
            r.push(lines[i].clone());
            assert(r.deep_view() =~= before.push(lines[i as int]@));
        }
        i = i + 1;
    }
    assert(all.subrange(0, all.len() as int) =~= all);
    r
}

impl ServiceEndpoint {
    fn apply(&mut self, c: &Sysproxy)
        ensures
            final(self)@ == write_endpoint(c@),
    {
        self.enabled = c.enable;
        self.server = c.host.clone();
        self.port = c.port;
    }
}

impl ServiceProxies {
    pub fn get_manual(&self) -> (r: Result<Sysproxy, Error>)
        ensures
            crate::result_view(r) == read_manual(self@),
    {
        if self.service.is_none() {
            return Err(Error::NetworkInterface);
        }
        Ok(
            Sysproxy {
                enable: self.web.enabled,
                host: self.web.server.clone(),
                port: self.web.port,
                bypass: join_items(&self.bypass_domains, SEPARATOR),
            },
        )
    }

    /// Writes the manual proxy; on error nothing is changed.
    pub fn set_manual(&mut self, c: &Sysproxy) -> (r: Result<(), Error>)
        ensures
            match write_manual(old(self)@, c@) {
                Ok(m) => r is Ok && final(self)@ == m,
                Err(e) => r is Err && r->Err_0@ == e && *final(self) == *old(self),
            },
    {
        if self.service.is_none() {
            return Err(Error::NetworkInterface);
        }
        self.web.apply(c);
        self.secure_web.apply(c);
        self.socks.apply(c);
        self.bypass_domains = list_items_of(c.bypass.as_str(), SEPARATOR);
        Ok(())
    }

    pub fn get_auto(&self) -> (r: Result<Autoproxy, Error>)
        ensures
            crate::result_view(r) == read_auto(self@),
    {
        if self.service.is_none() {
            return Err(Error::NetworkInterface);
        }
        Ok(Autoproxy { enable: self.auto_enabled, url: self.auto_url.clone() })
    }

    /// Writes the auto-proxy setting; on error nothing is changed.
    pub fn set_auto(&mut self, a: &Autoproxy) -> (r: Result<(), Error>)
        ensures
            match write_auto(old(self)@, a@) {
                Ok(m) => r is Ok && final(self)@ == m,
                Err(e) => r is Err && r->Err_0@ == e && *final(self) == *old(self),
            },
    {
        if self.service.is_none() {
            return Err(Error::NetworkInterface);
        }
        self.auto_enabled = a.enable;
        self.auto_url = a.url.clone();
        Ok(())
    }
}

/// A manual proxy written to the active service reads back unchanged.
pub proof fn lemma_manual_round_trip(m: ServiceProxiesView, c: SysproxyView)
    requires
        m.service is Some,
    ensures
        read_manual(write_manual(m, c)->Ok_0) == Ok::<SysproxyView, ErrorView>(c),
{
    lemma_join_list(c.bypass, SEPARATOR);
}

} // verus!
