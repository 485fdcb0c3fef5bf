//! The desktop settings schema for the system proxy: a mode key
//! (`none`, `manual` or `auto`), a host and port per protocol, the list of
//! ignored hosts and the auto-config URL.
use vstd::prelude::*;

use crate::text::{
    decimal, is_split_of, join, join_items, lemma_decimal, lemma_join_list, lemma_split_unique,
    list_items_of, list_of, parse_port, port_of, push_char, push_decimal, same_text, split,
    split_items,
};
use crate::{Error, ErrorView};
use crate::{Autoproxy, AutoproxyView, Sysproxy, SysproxyView};

verus! {

/// The host and port keys of one protocol.
#[derive(Debug, Clone, PartialEq, Eq)]
pub struct HostPort {
    pub host: String,
    pub port: u16,
}

pub struct HostPortView {
    pub host: Seq<char>,
    pub port: u16,
}

impl View for HostPort {
    type V = HostPortView;

    open spec fn view(&self) -> HostPortView {
        HostPortView { host: self.host@, port: self.port }
    }
}

/// The keys of the system-proxy schema.
#[derive(Debug, Clone, PartialEq, Eq)]
pub struct ProxySchema {
    /// `mode`: `none`, `manual` or `auto`.
    pub mode: String,
    pub http: HostPort,
    pub https: HostPort,
    pub socks: HostPort,
    /// `ignore-hosts`: one entry per bypassed host.
    pub ignore_hosts: Vec<String>,
    /// `autoconfig-url`.
    pub autoconfig_url: String,
}

pub struct ProxySchemaView {
    pub mode: Seq<char>,
    pub http: HostPortView,
    pub https: HostPortView,
    pub socks: HostPortView,
    pub ignore_hosts: Seq<Seq<char>>,
    pub autoconfig_url: Seq<char>,
}

impl View for ProxySchema {
    type V = ProxySchemaView;

    open spec fn view(&self) -> ProxySchemaView {
        ProxySchemaView {
            mode: self.mode@,
            http: self.http@,
            https: self.https@,
            socks: self.socks@,
            ignore_hosts: self.ignore_hosts.deep_view(),
            autoconfig_url: self.autoconfig_url@,
        }
    }
}

/// The bypass list's separator on this platform.
pub const SEPARATOR: char = ',';

pub open spec fn mode_none() -> Seq<char> {
    "none"@
}

pub open spec fn mode_manual() -> Seq<char> {
    "manual"@
}

pub open spec fn mode_auto() -> Seq<char> {
    "auto"@
}

/// The manual proxy: on exactly when the mode is `manual`, with the HTTP
/// endpoint whatever the mode.
pub open spec fn read_manual(g: ProxySchemaView) -> SysproxyView {
    SysproxyView {
        enable: g.mode == mode_manual(),
        host: g.http.host,
        port: g.http.port,
        bypass: join(g.ignore_hosts, SEPARATOR),
    }
}

/// The keys after a manual proxy is written. Enabling sets the mode to
/// `manual`, the endpoint of every protocol and the ignored hosts.
/// Disabling sets the mode to `none` and the ignored hosts, and keeps the
/// stored endpoint, so it is there again when the proxy is switched back on.
pub open spec fn write_manual(g: ProxySchemaView, c: SysproxyView) -> ProxySchemaView {
    if c.enable {
        let e = HostPortView { host: c.host, port: c.port };
        ProxySchemaView {
            mode: mode_manual(),
            http: e,
            https: e,
            socks: e,
            ignore_hosts: list_of(c.bypass, SEPARATOR),
            ..g
        }
    } else {
        ProxySchemaView { mode: mode_none(), ignore_hosts: list_of(c.bypass, SEPARATOR), ..g }
    }
}

/// The auto-config setting: on exactly when the mode is `auto`.
pub open spec fn read_auto(g: ProxySchemaView) -> AutoproxyView {
    AutoproxyView { enable: g.mode == mode_auto(), url: g.autoconfig_url }
}

/// The keys after an auto-config setting is written: the URL, and the mode
/// `auto` when enabling or `none` when disabling.
pub open spec fn write_auto(g: ProxySchemaView, a: AutoproxyView) -> ProxySchemaView {
    ProxySchemaView {
        mode: if a.enable { mode_auto() } else { mode_none() },
        autoconfig_url: a.url,
        ..g
    }
}

/// A string value in the settings tool's text syntax.
pub open spec fn quoted(s: Seq<char>) -> Seq<char> {
    seq!['\''] + s + seq!['\'']
}

/// The string inside single quotes, if `s` is quoted.
pub open spec fn unquoted(s: Seq<char>) -> Option<Seq<char>> {
    if s.len() >= 2 && s[0] == '\'' && s.last() == '\'' {
        Some(s.subrange(1, s.len() - 1))
    } else {
        None
    }
}

/// A list of strings in the settings tool's text syntax: `['a','b']`.
pub open spec fn list_text(items: Seq<Seq<char>>) -> Seq<char> {
    seq!['['] + join(items.map_values(|x: Seq<char>| quoted(x)), ',') + seq![']']
}

pub open spec fn trim_space(p: Seq<char>) -> Seq<char> {
    if p.len() > 0 && p[0] == ' ' {
        p.subrange(1, p.len() as int)
    } else {
        p
    }
}

/// The strings of the pieces of a list, each quoted after an optional
/// space, or `None` when one is not.
pub open spec fn unquoted_all(pieces: Seq<Seq<char>>) -> Option<Seq<Seq<char>>>
    decreases pieces.len(),
{
    if pieces.len() == 0 {
        Some(Seq::empty())
    } else {
        match (unquoted_all(pieces.drop_last()), unquoted(trim_space(pieces.last()))) {
            (Some(front), Some(x)) => Some(front.push(x)),
            _ => None,
        }
    }
}

/// The strings of a list as the settings tool prints it: `@as []` or
/// `[]` when empty, else `['a', 'b']`.
pub open spec fn list_items(s: Seq<char>) -> Option<Seq<Seq<char>>> {
    if s == "@as []"@ {
        Some(Seq::empty())
    } else if s.len() >= 2 && s[0] == '[' && s.last() == ']' {
        let inner = s.subrange(1, s.len() - 1);
        if inner.len() == 0 {
            Some(Seq::empty())
        } else {
            unquoted_all(split(inner, ','))
        }
    } else {
        None
    }
}

pub proof fn lemma_unquoted_none(p: Seq<Seq<char>>, i: int)
    requires
        0 <= i <= p.len(),
        unquoted_all(p.subrange(0, i)) is None,
    ensures
        unquoted_all(p) is None,
    decreases p.len() - i,
{
    if i < p.len() {
        assert(p.subrange(0, i + 1).drop_last() =~= p.subrange(0, i));
        lemma_unquoted_none(p, i + 1);
    } else {
        assert(p.subrange(0, i) =~= p);
    }
}

pub proof fn lemma_unquote_quoted(x: Seq<char>)
    ensures
        unquoted(quoted(x)) == Some(x),
        trim_space(quoted(x)) == quoted(x),
        quoted(x).len() >= 2,
        quoted(x).contains(',') ==> x.contains(','),
{
    let q = quoted(x);
    assert(q.subrange(1, q.len() - 1) =~= x);
    if q.contains(',') {
        let k = choose|k: int| 0 <= k < q.len() && q[k] == ',';
        assert(x[k - 1] == q[k]);
    }
}

pub proof fn lemma_unquoted_all_quoted(items: Seq<Seq<char>>)
    ensures
        unquoted_all(items.map_values(|x: Seq<char>| quoted(x))) == Some(items),
    decreases items.len(),
{
    let q = items.map_values(|x: Seq<char>| quoted(x));
    if items.len() > 0 {
        assert(q.drop_last() =~= items.drop_last().map_values(|x: Seq<char>| quoted(x)));
        lemma_unquoted_all_quoted(items.drop_last());
        lemma_unquote_quoted(items.last());
        assert(items.drop_last().push(items.last()) =~= items);
    } else {
        assert(items =~= Seq::<Seq<char>>::empty());
    }
}

/// A list written by `format_list` reads back as the same items, provided
/// no item holds the comma that separates them.
pub proof fn lemma_list_round_trip(items: Seq<Seq<char>>)
    requires
        forall|i: int| 0 <= i < items.len() ==> !(#[trigger] items[i]).contains(','),
    ensures
        list_items(list_text(items)) == Some(items),
{
    reveal_strlit("@as []");
    let q = items.map_values(|x: Seq<char>| quoted(x));
    let s = list_text(items);
    assert(s[0] != "@as []"@[0]);
    assert(s.subrange(1, s.len() - 1) =~= join(q, ','));
    if items.len() == 0 {
        assert(q =~= Seq::<Seq<char>>::empty());
        assert(items =~= Seq::<Seq<char>>::empty());
    } else {
        lemma_unquote_quoted(q.last());
        lemma_unquote_quoted(items.last());
        lemma_unquote_quoted(items[0]);
        assert(join(q, ',').len() >= 2);
        assert forall|i: int| 0 <= i < q.len() implies !(#[trigger] q[i]).contains(',') by {
            lemma_unquote_quoted(items[i]);
        }
        assert(is_split_of(q, join(q, ','), ','));
        lemma_split_unique(q, join(q, ','), ',');
        lemma_unquoted_all_quoted(items);
    }
}

/// The values that `to_text` gives read back, through `parse`, as the same
/// schema, provided no ignored host holds a comma.
pub proof fn lemma_text_round_trip(g: ProxySchemaView)
    requires
        forall|i: int| 0 <= i < g.ignore_hosts.len() ==> !(#[trigger] g.ignore_hosts[i]).contains(','),
    ensures
        parse_text(schema_text(g)) == Ok::<ProxySchemaView, ErrorView>(g),
{
    lemma_unquote_quoted(g.mode);
    lemma_unquote_quoted(g.http.host);
    lemma_unquote_quoted(g.https.host);
    lemma_unquote_quoted(g.socks.host);
    lemma_unquote_quoted(g.autoconfig_url);
    lemma_decimal(g.http.port as nat);
    lemma_decimal(g.https.port as nat);
    lemma_decimal(g.socks.port as nat);
    lemma_list_round_trip(g.ignore_hosts);
}

/// Quotes a string value.
pub fn quote(s: &str) -> (r: String)
    ensures
        r@ == quoted(s@),
{
    let mut r = String::new();
    push_char(&mut r, '\'');
    r.append(s);
    push_char(&mut r, '\'');
    assert(r@ =~= quoted(s@));
    r
}

/// Takes a string value out of its quotes.
pub fn unquote(s: &str) -> (r: Option<String>)
    ensures
        match unquoted(s@) {
            Some(v) => r is Some && r->Some_0@ == v,
            None => r is None,
        },
{
    let n = s.unicode_len();
    if n >= 2 && s.get_char(0) == '\'' && s.get_char(n - 1) == '\'' {
        Some(String::from_str(s.substring_char(1, n - 1)))
    } else {
        None
    }
}

/// Writes a list of strings.
pub fn format_list(items: &Vec<String>) -> (r: String)
    ensures
        r@ == list_text(items.deep_view()),
{
    let ghost q = items.deep_view().map_values(|x: Seq<char>| quoted(x));
    let mut r = String::new();
    push_char(&mut r, '[');
    let mut i: usize = 0;
    while i < items.len()
        invariant
            q == items.deep_view().map_values(|x: Seq<char>| quoted(x)),
            i <= items.len(),
            r@ == seq!['['] + join(q.subrange(0, i as int), ','),
        decreases items.len() - i,
    {
        let ghost before = q.subrange(0, i as int);
        let ghost after = q.subrange(0, i as int + 1);
        assert(after.drop_last() =~= before);
        assert(after.last() == quoted(items[i as int]@));
        if i > 0 {
            push_char(&mut r, ',');
        }
        let item = quote(items[i].as_str());
        r.append(item.as_str());
        i = i + 1;
        assert(r@ =~= seq!['['] + join(after, ','));
    }
    push_char(&mut r, ']');
    assert(q.subrange(0, items.len() as int) =~= q);
    assert(r@ =~= list_text(items.deep_view()));
    r
}

/// Reads a list of strings.
pub fn parse_list(s: &str) -> (r: Option<Vec<String>>)
    ensures
        match list_items(s@) {
            Some(v) => r is Some && r->Some_0.deep_view() == v,
            None => r is None,
        },
{
    if same_text(s, "@as []") {
        return Some(Vec::new());
    }
    let n = s.unicode_len();
    if n < 2 || s.get_char(0) != '[' || s.get_char(n - 1) != ']' {
        return None;
    }
    let inner = s.substring_char(1, n - 1);
    if inner.unicode_len() == 0 {
        return Some(Vec::new());
    }
    let pieces = split_items(inner, ',');
    let ghost all = pieces.deep_view();
    let mut out: Vec<String> = Vec::new();
    let mut i: usize = 0;
    assert(all.subrange(0, 0) =~= Seq::<Seq<char>>::empty());
    assert(list_items(s@) == unquoted_all(all));
    while i < pieces.len()
        invariant
            all == pieces.deep_view(),
            list_items(s@) == unquoted_all(all),
            i <= pieces.len(),
            unquoted_all(all.subrange(0, i as int)) == Some(out.deep_view()),
        decreases pieces.len() - i,
    {
        let ghost before = out.deep_view();
        let ghost upto = all.subrange(0, i as int + 1);
        assert(upto.drop_last() =~= all.subrange(0, i as int));
        assert(upto.last() == pieces[i as int]@);
        let p = pieces[i].as_str();
        let m = p.unicode_len();
        let t = if m > 0 && p.get_char(0) == ' ' {
            p.substring_char(1, m)
        } else {
            p
        };
        assert(t@ == trim_space(p@));
        match unquote(t) {
            Some(x) => {
                out.push(x);
                assert(out.deep_view() =~= before.push(unquoted(trim_space(p@))->Some_0));
            },
            None => {
                proof {
                    lemma_unquoted_none(all, i as int + 1);
                }
                return None;
            },
        }
        i = i + 1;
    }
    assert(all.subrange(0, all.len() as int) =~= all);
    Some(out)
}

/// The schema's keys as the settings tool prints and reads them.
#[derive(Debug, Clone, PartialEq, Eq)]
pub struct SettingsText {
    pub mode: String,
    pub http_host: String,
    pub http_port: String,
    pub https_host: String,
    pub https_port: String,
    pub socks_host: String,
    pub socks_port: String,
    pub ignore_hosts: String,
    pub autoconfig_url: String,
}

pub struct SettingsTextView {
    pub mode: Seq<char>,
    pub http_host: Seq<char>,
    pub http_port: Seq<char>,
    pub https_host: Seq<char>,
    pub https_port: Seq<char>,
    pub socks_host: Seq<char>,
    pub socks_port: Seq<char>,
    pub ignore_hosts: Seq<char>,
    pub autoconfig_url: Seq<char>,
}

impl View for SettingsText {
    type V = SettingsTextView;

    open spec fn view(&self) -> SettingsTextView {
        SettingsTextView {
            mode: self.mode@,
            http_host: self.http_host@,
            http_port: self.http_port@,
            https_host: self.https_host@,
            https_port: self.https_port@,
            socks_host: self.socks_host@,
            socks_port: self.socks_port@,
            ignore_hosts: self.ignore_hosts@,
            autoconfig_url: self.autoconfig_url@,
        }
    }
}

pub open spec fn quoted_value(s: Seq<char>) -> core::result::Result<Seq<char>, ErrorView> {
    match unquoted(s) {
        Some(v) => Ok(v),
        None => Err(ErrorView::ParseStr(s)),
    }
}

pub open spec fn host_port_value(h: Seq<char>, p: Seq<char>) -> core::result::Result<
    HostPortView,
    ErrorView,
> {
    match quoted_value(h) {
        Err(e) => Err(e),
        Ok(host) => match port_of(p) {
            Some(port) => Ok(HostPortView { host, port }),
            None => Err(ErrorView::ParseStr(p)),
        },
    }
}

/// The schema that printed values hold; the first value, in field order,
/// that is not in the tool's syntax is the error.
pub open spec fn parse_text(t: SettingsTextView) -> core::result::Result<ProxySchemaView, ErrorView> {
    match (
        quoted_value(t.mode),
        host_port_value(t.http_host, t.http_port),
        host_port_value(t.https_host, t.https_port),
        host_port_value(t.socks_host, t.socks_port),
    ) {
        (Err(e), _, _, _) => Err(e),
        (Ok(_), Err(e), _, _) => Err(e),
        (Ok(_), Ok(_), Err(e), _) => Err(e),
        (Ok(_), Ok(_), Ok(_), Err(e)) => Err(e),
        (Ok(mode), Ok(http), Ok(https), Ok(socks)) => match list_items(t.ignore_hosts) {
            None => Err(ErrorView::ParseStr(t.ignore_hosts)),
            Some(ignore_hosts) => match quoted_value(t.autoconfig_url) {
                Err(e) => Err(e),
                Ok(autoconfig_url) => Ok(
                    ProxySchemaView { mode, http, https, socks, ignore_hosts, autoconfig_url },
                ),
            },
        },
    }
}

/// The values to hand to the settings tool for a schema.
pub open spec fn schema_text(g: ProxySchemaView) -> SettingsTextView {
    SettingsTextView {
        mode: quoted(g.mode),
        http_host: quoted(g.http.host),
        http_port: decimal(g.http.port as nat),
        https_host: quoted(g.https.host),
        https_port: decimal(g.https.port as nat),
        socks_host: quoted(g.socks.host),
        socks_port: decimal(g.socks.port as nat),
        ignore_hosts: list_text(g.ignore_hosts),
        autoconfig_url: quoted(g.autoconfig_url),
    }
}

fn read_quoted(s: &String) -> (r: Result<String, Error>)
    ensures
        crate::result_view(r) == quoted_value(s@),
{
    match unquote(s.as_str()) {
        Some(v) => Ok(v),
        None => Err(Error::ParseStr(s.clone())),
    }
}

fn read_host_port(h: &String, p: &String) -> (r: Result<HostPort, Error>)
    ensures
        crate::result_view(r) == host_port_value(h@, p@),
{
    let host = read_quoted(h)?;
    match parse_port(p.as_str()) {
        Some(port) => Ok(HostPort { host, port }),
        None => Err(Error::ParseStr(p.clone())),
    }
}

fn port_text(port: u16) -> (r: String)
    ensures
        r@ == decimal(port as nat),
{
    let mut r = String::new();
    push_decimal(&mut r, port);
    assert(r@ =~= decimal(port as nat));
    r
}

impl SettingsText {
    /// Reads the schema out of the printed values.
    pub fn parse(&self) -> (r: Result<ProxySchema, Error>)
        ensures
            crate::result_view(r) == parse_text(self@),
    {
        let mode = read_quoted(&self.mode)?;
        let http = read_host_port(&self.http_host, &self.http_port)?;
        let https = read_host_port(&self.https_host, &self.https_port)?;
        let socks = read_host_port(&self.socks_host, &self.socks_port)?;
        let ignore_hosts = match parse_list(self.ignore_hosts.as_str()) {
            Some(v) => v,
            None => {
                return Err(Error::ParseStr(self.ignore_hosts.clone()));
            },
        };
        let autoconfig_url = read_quoted(&self.autoconfig_url)?;
        Ok(ProxySchema { mode, http, https, socks, ignore_hosts, autoconfig_url })
    }
}

impl ProxySchema {
    /// The values to hand to the settings tool.
    pub fn to_text(&self) -> (r: SettingsText)
        ensures
            r@ == schema_text(self@),
    {
        SettingsText {
            mode: quote(self.mode.as_str()),
            http_host: quote(self.http.host.as_str()),
            http_port: port_text(self.http.port),
            https_host: quote(self.https.host.as_str()),
            https_port: port_text(self.https.port),
            socks_host: quote(self.socks.host.as_str()),
            socks_port: port_text(self.socks.port),
            ignore_hosts: format_list(&self.ignore_hosts),
            autoconfig_url: quote(self.autoconfig_url.as_str()),
        }
    }

    pub fn get_manual(&self) -> (r: Sysproxy)
        ensures
            r@ == read_manual(self@),
    {
        Sysproxy {
            enable: same_text(self.mode.as_str(), "manual"),
            host: self.http.host.clone(),
            port: self.http.port,
            bypass: join_items(&self.ignore_hosts, SEPARATOR),
        }
    }

    pub fn set_manual(&mut self, c: &Sysproxy)
        ensures
            final(self)@ == write_manual(old(self)@, c@),
    {
        if c.enable {
            self.mode = String::from_str("manual");
            self.http = HostPort { host: c.host.clone(), port: c.port };
            self.https = HostPort { host: c.host.clone(), port: c.port };
            self.socks = HostPort { host: c.host.clone(), port: c.port };
        } else {
            self.mode = String::from_str("none");
        }
        self.ignore_hosts = list_items_of(c.bypass.as_str(), SEPARATOR);
    }

    pub fn get_auto(&self) -> (r: Autoproxy)
        ensures
            r@ == read_auto(self@),
    {
        Autoproxy { enable: same_text(self.mode.as_str(), "auto"), url: self.autoconfig_url.clone() }
    }

    pub fn set_auto(&mut self, a: &Autoproxy)
        ensures
            final(self)@ == write_auto(old(self)@, a@),
    {
        self.mode = if a.enable {
            String::from_str("auto")
        } else {
            String::from_str("none")
        };
        self.autoconfig_url = a.url.clone();
    }
}

/// An enabled manual proxy written to the schema reads back unchanged.
pub proof fn lemma_manual_round_trip(g: ProxySchemaView, c: SysproxyView)
    requires
        c.enable,
    ensures
        read_manual(write_manual(g, c)) == c,
{
    lemma_join_list(c.bypass, SEPARATOR);
}

} // verus!
