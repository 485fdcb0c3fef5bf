//! What holds across calls: round trips, idempotence and failure behaviour
//! of the stores, stated over the same spec functions as the operations.
use vstd::prelude::*;

use crate::{
    platform_of, read_auto, read_manual, supported, write_auto, write_manual, AutoproxyView,
    ErrorView, Platform, ProxyStoreView, SysproxyView,
};

verus! {

/// Writing an enabled manual proxy and reading it back gives the same
/// record: switch, host, port and bypass list.
pub proof fn law_manual_round_trip(s: ProxyStoreView, c: SysproxyView)
    requires
        c.enable,
    ensures
        write_manual(s, c) is Ok ==> read_manual(write_manual(s, c)->Ok_0) == Ok::<
            SysproxyView,
            ErrorView,
        >(c),
{
    match s {
        ProxyStoreView::Windows(w) => crate::windows::lemma_manual_round_trip(w, c),
        ProxyStoreView::MacOs(m) => {
            if m.service is Some {
                crate::macos::lemma_manual_round_trip(m, c);
            }
        },
        ProxyStoreView::Linux(g) => crate::linux::lemma_manual_round_trip(g, c),
        ProxyStoreView::Other => {},
    }
}

/// Writing an auto-config setting and reading it back gives the same
/// setting, on every platform that has a store and, where settings belong
/// to a network service, while one is active.
pub proof fn law_auto_round_trip(s: ProxyStoreView, a: AutoproxyView)
    ensures
        write_auto(s, a) is Ok ==> read_auto(write_auto(s, a)->Ok_0) == Ok::<
            AutoproxyView,
            ErrorView,
        >(a),
{
    reveal_strlit("none");
    reveal_strlit("auto");
    assert("none"@ != "auto"@) by {
        assert("none"@[0] != "auto"@[0]);
    }
}

/// Writing the same manual proxy twice leaves the store as writing it once
/// did, so a read afterwards gives the same result.
pub proof fn law_manual_idempotent(s: ProxyStoreView, c: SysproxyView)
    ensures
        write_manual(s, c) is Ok ==> {
            let s1 = write_manual(s, c)->Ok_0;
            &&& write_manual(s1, c) == Ok::<ProxyStoreView, ErrorView>(s1)
            &&& read_manual(write_manual(s1, c)->Ok_0) == read_manual(s1)
        },
{
    reveal_strlit("none");
    reveal_strlit("manual");
}

/// On the desktop settings schema, which keeps the endpoint while the proxy
/// is off, switching the proxy off keeps the host and port that were written
/// before, and switching it back on with the record read in between
/// restores them.
pub proof fn law_disable_then_enable(s: ProxyStoreView, on: SysproxyView, off: SysproxyView)
    requires
        platform_of(s) == Platform::Linux,
        on.enable,
        !off.enable,
        write_manual(s, on) is Ok,
    ensures
        ({
            let s1 = write_manual(s, on)->Ok_0;
            let s2 = write_manual(s1, off)->Ok_0;
            let got = read_manual(s2)->Ok_0;
            let again = SysproxyView { enable: true, ..got };
            &&& write_manual(s1, off) is Ok
            &&& read_manual(s2) is Ok
            &&& !got.enable
            &&& got.host == on.host
            &&& got.port == on.port
            &&& write_manual(s2, again) is Ok
            &&& read_manual(write_manual(s2, again)->Ok_0) is Ok
            &&& read_manual(write_manual(s2, again)->Ok_0)->Ok_0.enable
            &&& read_manual(write_manual(s2, again)->Ok_0)->Ok_0.host == on.host
            &&& read_manual(write_manual(s2, again)->Ok_0)->Ok_0.port == on.port
        }),
{
    reveal_strlit("none");
    reveal_strlit("manual");
    let s1 = write_manual(s, on)->Ok_0;
    let s2 = write_manual(s1, off)->Ok_0;
    let got = read_manual(s2)->Ok_0;
    assert("none"@ != "manual"@) by {
        assert("none"@.len() != "manual"@.len());
    }
    law_manual_round_trip(s2, SysproxyView { enable: true, ..got });
}

/// A platform is supported exactly when none of the four operations
/// answers that it is not.
pub proof fn law_capability(s: ProxyStoreView, c: SysproxyView, a: AutoproxyView)
    ensures
        supported(platform_of(s)) <==> !(read_manual(s) == Err::<SysproxyView, ErrorView>(
            ErrorView::NotSupport,
        )),
        supported(platform_of(s)) <==> !(write_manual(s, c) == Err::<ProxyStoreView, ErrorView>(
            ErrorView::NotSupport,
        )),
        supported(platform_of(s)) <==> !(read_auto(s) == Err::<AutoproxyView, ErrorView>(
            ErrorView::NotSupport,
        )),
        supported(platform_of(s)) <==> !(write_auto(s, a) == Err::<ProxyStoreView, ErrorView>(
            ErrorView::NotSupport,
        )),
{
}

/// Without an active network service, every operation on the per-service
/// settings fails with `NetworkInterface`; the setters then leave the store
/// as it was (see their contracts).
pub proof fn law_missing_service(
    m: crate::macos::ServiceProxiesView,
    c: SysproxyView,
    a: AutoproxyView,
)
    requires
        m.service is None,
    ensures
        read_manual(ProxyStoreView::MacOs(m)) == Err::<SysproxyView, ErrorView>(
            ErrorView::NetworkInterface,
        ),
        write_manual(ProxyStoreView::MacOs(m), c) == Err::<ProxyStoreView, ErrorView>(
            ErrorView::NetworkInterface,
        ),
        read_auto(ProxyStoreView::MacOs(m)) == Err::<AutoproxyView, ErrorView>(
            ErrorView::NetworkInterface,
        ),
        write_auto(ProxyStoreView::MacOs(m), a) == Err::<ProxyStoreView, ErrorView>(
            ErrorView::NetworkInterface,
        ),
{
}

} // verus!
