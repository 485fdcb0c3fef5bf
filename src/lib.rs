//! Get and set the system proxy. Each supported platform keeps its proxy
//! settings in a native store; this crate models each store as plain values
//! and states, for each operation, exactly how a record maps onto the store
//! and back. Reading the store from the system and writing it back are left
//! to the caller.
use vstd::prelude::*;

pub mod laws;
pub mod linux;
pub mod macos;
pub mod text;
pub mod windows;

verus! {

/// A manual proxy: one endpoint for every protocol, plus the hosts that
/// bypass it in the platform's own list syntax.
#[derive(Debug, Default, Clone, PartialEq, Eq)]
pub struct Sysproxy {
    pub enable: bool,
    pub host: String,
    pub port: u16,
    pub bypass: String,
}

/// An automatic proxy: the URL of a proxy auto-config script.
#[derive(Debug, Default, Clone, PartialEq, Eq)]
pub struct Autoproxy {
    pub enable: bool,
    pub url: String,
}

pub struct SysproxyView {
    pub enable: bool,
    pub host: Seq<char>,
    pub port: u16,
    pub bypass: Seq<char>,
}

pub struct AutoproxyView {
    pub enable: bool,
    pub url: Seq<char>,
}

impl View for Sysproxy {
    type V = SysproxyView;

    open spec fn view(&self) -> SysproxyView {
        SysproxyView { enable: self.enable, host: self.host@, port: self.port, bypass: self.bypass@ }
    }
}

impl View for Autoproxy {
    type V = AutoproxyView;

    open spec fn view(&self) -> AutoproxyView {
        AutoproxyView { enable: self.enable, url: self.url@ }
    }
}

#[verifier::external_type_specification]
#[verifier::external_body]
pub struct ExIoError(std::io::Error);

#[derive(Debug)]
pub enum Error {
    /// A stored value is present but not in the expected syntax.
    ParseStr(String),
    /// An I/O fault while talking to the native store.
    Io(std::io::Error),
    /// No active network service could be found.
    NetworkInterface,
    /// The platform has no proxy store this crate knows.
    NotSupport,
    /// A native system call reported failure, with its code.
    SystemCall(u32),
}

pub enum ErrorView {
    ParseStr(Seq<char>),
    Io,
    NetworkInterface,
    NotSupport,
    SystemCall(u32),
}

impl View for Error {
    type V = ErrorView;

    open spec fn view(&self) -> ErrorView {
        match self {
            Error::ParseStr(s) => ErrorView::ParseStr(s@),
            Error::Io(_) => ErrorView::Io,
            Error::NetworkInterface => ErrorView::NetworkInterface,
            Error::NotSupport => ErrorView::NotSupport,
            Error::SystemCall(code) => ErrorView::SystemCall(*code),
        }
    }
}

pub type Result<T> = core::result::Result<T, Error>;

pub open spec fn result_view<T: View>(r: Result<T>) -> core::result::Result<T::V, ErrorView> {
    match r {
        Ok(v) => Ok(v@),
        Err(e) => Err(e@),
    }
}

/// The operating-system families.
#[derive(Clone, Copy, Debug, PartialEq, Eq, Structural)]
pub enum Platform {
    Windows,
    MacOs,
    Linux,
    Other,
}

pub open spec fn supported(p: Platform) -> bool {
    p != Platform::Other
}

/// The native proxy store of the platform in use, read by the caller.
#[derive(Debug, Clone, PartialEq, Eq)]
pub enum ProxyStore {
    Windows(windows::InternetSettings),
    MacOs(macos::ServiceProxies),
    Linux(linux::ProxySchema),
    /// A platform without a known store.
    Other,
}

pub enum ProxyStoreView {
    Windows(windows::InternetSettingsView),
    MacOs(macos::ServiceProxiesView),
    Linux(linux::ProxySchemaView),
    Other,
}

impl View for ProxyStore {
    type V = ProxyStoreView;

    open spec fn view(&self) -> ProxyStoreView {
        match self {
            ProxyStore::Windows(w) => ProxyStoreView::Windows(w@),
            ProxyStore::MacOs(m) => ProxyStoreView::MacOs(m@),
            ProxyStore::Linux(g) => ProxyStoreView::Linux(g@),
            ProxyStore::Other => ProxyStoreView::Other,
        }
    }
}

pub open spec fn platform_of(s: ProxyStoreView) -> Platform {
    match s {
        ProxyStoreView::Windows(_) => Platform::Windows,
        ProxyStoreView::MacOs(_) => Platform::MacOs,
        ProxyStoreView::Linux(_) => Platform::Linux,
        ProxyStoreView::Other => Platform::Other,
    }
}

/// The manual proxy that a store holds.
pub open spec fn read_manual(s: ProxyStoreView) -> core::result::Result<SysproxyView, ErrorView> {
    match s {
        ProxyStoreView::Windows(w) => windows::read_manual(w),
        ProxyStoreView::MacOs(m) => macos::read_manual(m),
        ProxyStoreView::Linux(g) => Ok(linux::read_manual(g)),
        ProxyStoreView::Other => Err(ErrorView::NotSupport),
    }
}

/// The store after a manual proxy is written, or why it cannot be.
pub open spec fn write_manual(s: ProxyStoreView, c: SysproxyView) -> core::result::Result<
    ProxyStoreView,
    ErrorView,
> {
    match s {
        ProxyStoreView::Windows(w) => Ok(ProxyStoreView::Windows(windows::write_manual(w, c))),
        ProxyStoreView::MacOs(m) => match macos::write_manual(m, c) {
            Ok(m2) => Ok(ProxyStoreView::MacOs(m2)),
            Err(e) => Err(e),
        },
        ProxyStoreView::Linux(g) => Ok(ProxyStoreView::Linux(linux::write_manual(g, c))),
        ProxyStoreView::Other => Err(ErrorView::NotSupport),
    }
}

/// The auto-config setting that a store holds.
pub open spec fn read_auto(s: ProxyStoreView) -> core::result::Result<AutoproxyView, ErrorView> {
    match s {
        ProxyStoreView::Windows(w) => Ok(windows::read_auto(w)),
        ProxyStoreView::MacOs(m) => macos::read_auto(m),
        ProxyStoreView::Linux(g) => Ok(linux::read_auto(g)),
        ProxyStoreView::Other => Err(ErrorView::NotSupport),
    }
}

/// The store after an auto-config setting is written, or why it cannot be.
pub open spec fn write_auto(s: ProxyStoreView, a: AutoproxyView) -> core::result::Result<
    ProxyStoreView,
    ErrorView,
> {
    match s {
        ProxyStoreView::Windows(w) => Ok(ProxyStoreView::Windows(windows::write_auto(w, a))),
        ProxyStoreView::MacOs(m) => match macos::write_auto(m, a) {
            Ok(m2) => Ok(ProxyStoreView::MacOs(m2)),
            Err(e) => Err(e),
        },
        ProxyStoreView::Linux(g) => Ok(ProxyStoreView::Linux(linux::write_auto(g, a))),
        ProxyStoreView::Other => Err(ErrorView::NotSupport),
    }
}

impl ProxyStore {
    pub fn platform(&self) -> (r: Platform)
        ensures
            r == platform_of(self@),
    {
        match self {
            ProxyStore::Windows(_) => Platform::Windows,
            ProxyStore::MacOs(_) => Platform::MacOs,
            ProxyStore::Linux(_) => Platform::Linux,
            ProxyStore::Other => Platform::Other,
        }
    }
}

impl Sysproxy {
    /// Whether the platform has a manual-proxy store.
    pub fn is_support(p: Platform) -> (r: bool)
        ensures
            r == supported(p),
    {
        match p {
            Platform::Other => false,
            _ => true,
        }
    }

    /// Reads the manual proxy out of the store.
    pub fn get_system_proxy(store: &ProxyStore) -> (r: Result<Sysproxy>)
        ensures
            result_view(r) == read_manual(store@),
    {
        match store {
            ProxyStore::Windows(w) => w.get_manual(),
            ProxyStore::MacOs(m) => m.get_manual(),
            ProxyStore::Linux(g) => Ok(g.get_manual()),
            ProxyStore::Other => Err(Error::NotSupport),
        }
    }

    /// Writes this manual proxy into the store, all of it or, on error,
    /// none of it.
    pub fn set_system_proxy(&self, store: &mut ProxyStore) -> (r: Result<()>)
        ensures
            match write_manual(old(store)@, self@) {
                Ok(s) => r is Ok && final(store)@ == s,
                Err(e) => r is Err && r->Err_0@ == e && *final(store) == *old(store),
            },
    {
        match store {
            ProxyStore::Windows(w) => {
                w.set_manual(self);
                Ok(())
            },
            ProxyStore::MacOs(m) => m.set_manual(self),
            ProxyStore::Linux(g) => {
                g.set_manual(self);
                Ok(())
            },
            ProxyStore::Other => Err(Error::NotSupport),
        }
    }
}

impl Autoproxy {
    /// Whether the platform has an auto-config store.
    pub fn is_support(p: Platform) -> (r: bool)
        ensures
            r == supported(p),
    {
        match p {
            Platform::Other => false,
            _ => true,
        }
    }

    /// Reads the auto-config setting out of the store.
    pub fn get_auto_proxy(store: &ProxyStore) -> (r: Result<Autoproxy>)
        ensures
            result_view(r) == read_auto(store@),
    {
        match store {
            ProxyStore::Windows(w) => Ok(w.get_auto()),
            ProxyStore::MacOs(m) => m.get_auto(),
            ProxyStore::Linux(g) => Ok(g.get_auto()),
            ProxyStore::Other => Err(Error::NotSupport),
        }
    }

    /// Writes this auto-config setting into the store, all of it or, on
    /// error, none of it.
    pub fn set_auto_proxy(&self, store: &mut ProxyStore) -> (r: Result<()>)
        ensures
            match write_auto(old(store)@, self@) {
                Ok(s) => r is Ok && final(store)@ == s,
                Err(e) => r is Err && r->Err_0@ == e && *final(store) == *old(store),
            },
    {
        match store {
            ProxyStore::Windows(w) => {
                w.set_auto(self);
                Ok(())
            },
            ProxyStore::MacOs(m) => m.set_auto(self),
            ProxyStore::Linux(g) => {
                g.set_auto(self);
                Ok(())
            },
            ProxyStore::Other => Err(Error::NotSupport),
        }
    }
}

/// The suggested bypass list of each platform.
pub open spec fn default_bypass_of(p: Platform) -> Seq<char> {
    match p {
        Platform::Windows => "localhost;127.*;192.168.*;10.*;172.16.*;172.17.*;172.18.*;172.19.*;172.20.*;172.21.*;172.22.*;172.23.*;172.24.*;172.25.*;172.26.*;172.27.*;172.28.*;172.29.*;172.30.*;172.31.*;<local>"@,
        Platform::MacOs => "127.0.0.1,192.168.0.0/16,10.0.0.0/8,172.16.0.0/12,localhost,*.local,*.crashlytics.com,<local>"@,
        Platform::Linux => "localhost,127.0.0.1,192.168.0.0/16,10.0.0.0/8,172.16.0.0/12,::1"@,
        Platform::Other => ""@,
    }
}

/// The bypass list suggested to callers building a new [`Sysproxy`]; it is
/// never applied implicitly.
pub fn default_bypass(p: Platform) -> (r: &'static str)
    ensures
        r@ == default_bypass_of(p),
{
    match p {
        Platform::Windows => "localhost;127.*;192.168.*;10.*;172.16.*;172.17.*;172.18.*;172.19.*;172.20.*;172.21.*;172.22.*;172.23.*;172.24.*;172.25.*;172.26.*;172.27.*;172.28.*;172.29.*;172.30.*;172.31.*;<local>",
        Platform::MacOs => "127.0.0.1,192.168.0.0/16,10.0.0.0/8,172.16.0.0/12,localhost,*.local,*.crashlytics.com,<local>",
        Platform::Linux => "localhost,127.0.0.1,192.168.0.0/16,10.0.0.0/8,172.16.0.0/12,::1",
        Platform::Other => "",
    }
}

} // verus!
