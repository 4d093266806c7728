//! What the operations on adapters give, told from the fields that go in and the
//! values that come out.

use vstd::prelude::*;

use crate::adapter::{adapters, all_adapters, ehentai, pixiv, Service, ServiceAdapter};
use crate::page_url::PageUrl;
use crate::text;

verus! {

/// The view of an adapter reads each field as it stands.
pub proof fn law_adapter_reads_its_fields(a: ServiceAdapter)
    ensures
        a@.service == a.service,
        a@.window_label == a.window_label@,
        a@.login_url == a.login_url@,
        a@.session_file == a.session_file@,
        a@.post_login_hosts.len() == a.post_login_hosts@.len(),
        forall|k: int|
            0 <= k < a.post_login_hosts@.len() ==> #[trigger] a@.post_login_hosts[k]
                == a.post_login_hosts@[k]@,
        a@.cookie_host_suffixes.len() == a.cookie_host_suffixes@.len(),
        forall|k: int|
            0 <= k < a.cookie_host_suffixes@.len() ==> #[trigger] a@.cookie_host_suffixes[k]
                == a.cookie_host_suffixes@[k]@,
{
}

/// Whether a page is past login for an adapter of Pixiv: its host is, letter for
/// letter, one of the adapter's hosts, and its path does not begin with `/login`.
/// Neither the query nor anything else of the page has a say.
pub proof fn law_past_login_on_pixiv(adapter: ServiceAdapter, url: PageUrl, r: bool)
    requires
        call_ensures(ServiceAdapter::is_post_login, (&adapter, &url), r),
        adapter.service is Pixiv,
    ensures
        "/login"@.is_prefix_of(url.path@) ==> !r,
        !"/login"@.is_prefix_of(url.path@) ==> r == exists|k: int|
            0 <= k < adapter.post_login_hosts@.len() && (#[trigger] adapter.post_login_hosts@[k])@
                == (match url.host {
                Some(host) => host@,
                None => Seq::<char>::empty(),
            }),
{
    lemma_listed(adapter, url);
}

/// Whether a page is past login for an adapter of eHentai: its host is, letter
/// for letter, one of the adapter's hosts, and it is not `/index.php` with
/// `act=Login` somewhere in the query.
pub proof fn law_past_login_on_ehentai(adapter: ServiceAdapter, url: PageUrl, r: bool)
    requires
        call_ensures(ServiceAdapter::is_post_login, (&adapter, &url), r),
        adapter.service is Ehentai,
    ensures
        ({
            let listed = exists|k: int|
                0 <= k < adapter.post_login_hosts@.len() && (
                #[trigger] adapter.post_login_hosts@[k])@ == (match url.host {
                    Some(host) => host@,
                    None => Seq::<char>::empty(),
                });
            let asks_for_login = url.path@ == "/index.php"@ && (url.query matches Some(query)
                && exists|before: Seq<char>, after: Seq<char>|
                query@ == #[trigger] (before + "act=Login"@ + after));
            r == (listed && !asks_for_login)
        }),
{
    lemma_listed(adapter, url);
    if let Some(query) = url.query {
        text::lemma_piece_is_between(query@, "act=Login"@);
    }
}

/// A host is among the readings of a list iff some entry of it reads that host.
proof fn lemma_listed(adapter: ServiceAdapter, url: PageUrl)
    ensures
        adapter@.post_login_hosts.contains(url@.host_or_empty()) <==> exists|k: int|
            0 <= k < adapter.post_login_hosts@.len() && (#[trigger] adapter.post_login_hosts@[k])@
                == (match url.host {
                Some(host) => host@,
                None => Seq::<char>::empty(),
            }),
{
    let host = url@.host_or_empty();
    let hosts = adapter@.post_login_hosts;
    if hosts.contains(host) {
        let k = choose|k: int| 0 <= k < hosts.len() && hosts[k] == host;
        assert(adapter.post_login_hosts@[k]@ == host);
    }
    if exists|k: int|
        0 <= k < adapter.post_login_hosts@.len() && (#[trigger] adapter.post_login_hosts@[k])@
            == host {
        let k = choose|k: int|
            0 <= k < adapter.post_login_hosts@.len() && (#[trigger] adapter.post_login_hosts@[k])@
                == host;
        assert(hosts[k] == host);
    }
}

/// Moving a page to another host of the same list changes nothing, and what
/// stands behind `/login` in a path changes nothing: two answers of one Pixiv
/// adapter differ only where host or beginning of the path do.
pub proof fn law_pixiv_answers_relate(
    adapter: ServiceAdapter,
    one: PageUrl,
    other: PageUrl,
    r: bool,
    s: bool,
)
    requires
        call_ensures(ServiceAdapter::is_post_login, (&adapter, &one), r),
        call_ensures(ServiceAdapter::is_post_login, (&adapter, &other), s),
        adapter.service is Pixiv,
        adapter@.post_login_hosts.contains(one@.host_or_empty()),
        adapter@.post_login_hosts.contains(other@.host_or_empty()),
        "/login"@.is_prefix_of(one.path@) == "/login"@.is_prefix_of(other.path@),
    ensures
        r == s,
{
    lemma_listed(adapter, one);
    lemma_listed(adapter, other);
    law_past_login_on_pixiv(adapter, one, r);
    law_past_login_on_pixiv(adapter, other, s);
}

/// The Pixiv adapter: its window, its login page, the two hosts past login, the
/// two cookie hosts and the session file.
pub proof fn law_pixiv_data(r: ServiceAdapter)
    requires
        call_ensures(pixiv, (), r),
    ensures
        r.service == Service::Pixiv,
        r.window_label@ == "pixiv-login"@,
        r.login_url@
            == "https://accounts.pixiv.net/login?return_to=https%3A%2F%2Fwww.pixiv.net%2F"@,
        r.post_login_hosts@.len() == 2,
        r.post_login_hosts@[0]@ == "www.pixiv.net"@,
        r.post_login_hosts@[1]@ == "accounts.pixiv.net"@,
        r.cookie_host_suffixes@.len() == 2,
        r.cookie_host_suffixes@[0]@ == "pixiv.net"@,
        r.cookie_host_suffixes@[1]@ == "accounts.pixiv.net"@,
        r.session_file@ == "pixiv_session.json"@,
{
    law_adapter_reads_its_fields(r);
    assert(r@.post_login_hosts[0] == r.post_login_hosts@[0]@);
    assert(r@.post_login_hosts[1] == r.post_login_hosts@[1]@);
    assert(r@.cookie_host_suffixes[0] == r.cookie_host_suffixes@[0]@);
    assert(r@.cookie_host_suffixes[1] == r.cookie_host_suffixes@[1]@);
}

/// The eHentai adapter: its window, its login page, the three hosts past login,
/// the two cookie hosts and the session file.
pub proof fn law_ehentai_data(r: ServiceAdapter)
    requires
        call_ensures(ehentai, (), r),
    ensures
        r.service == Service::Ehentai,
        r.window_label@ == "ehentai-login"@,
        r.login_url@ == "https://forums.e-hentai.org/index.php?act=Login&CODE=00"@,
        r.post_login_hosts@.len() == 3,
        r.post_login_hosts@[0]@ == "e-hentai.org"@,
        r.post_login_hosts@[1]@ == "exhentai.org"@,
        r.post_login_hosts@[2]@ == "forums.e-hentai.org"@,
        r.cookie_host_suffixes@.len() == 2,
        r.cookie_host_suffixes@[0]@ == "e-hentai.org"@,
        r.cookie_host_suffixes@[1]@ == "exhentai.org"@,
        r.session_file@ == "ehentai_session.json"@,
{
    law_adapter_reads_its_fields(r);
    assert(r@.post_login_hosts[0] == r.post_login_hosts@[0]@);
    assert(r@.post_login_hosts[1] == r.post_login_hosts@[1]@);
    assert(r@.post_login_hosts[2] == r.post_login_hosts@[2]@);
    assert(r@.cookie_host_suffixes[0] == r.cookie_host_suffixes@[0]@);
    assert(r@.cookie_host_suffixes[1] == r.cookie_host_suffixes@[1]@);
}

/// Both registries hold the Pixiv adapter, then the eHentai adapter, and nothing
/// else.
pub proof fn law_registries_hold_both(
    array: [ServiceAdapter; 2],
    list: Vec<ServiceAdapter>,
    p: ServiceAdapter,
    e: ServiceAdapter,
)
    requires
        call_ensures(adapters, (), array),
        call_ensures(all_adapters, (), list),
        call_ensures(pixiv, (), p),
        call_ensures(ehentai, (), e),
    ensures
        array@[0]@ == p@,
        array@[1]@ == e@,
        list@.len() == 2,
        list@[0]@ == p@,
        list@[1]@ == e@,
{
    let read = |adapter: ServiceAdapter| adapter@;
    assert(array@.map_values(read)[0] == array@[0]@);
    assert(array@.map_values(read)[1] == array@[1]@);
    assert(list@.map_values(read).len() == list@.len());
    assert(list@.map_values(read)[0] == list@[0]@);
    assert(list@.map_values(read)[1] == list@[1]@);
}

/// Each getter hands out the field of its name.
pub proof fn law_getters_read_the_fields(
    a: ServiceAdapter,
    label: &'static str,
    page: &'static str,
    suffixes: &'static [&'static str],
    hosts: &'static [&'static str],
    file: &'static str,
)
    requires
        call_ensures(ServiceAdapter::window_label, (&a,), label),
        call_ensures(ServiceAdapter::login_url, (&a,), page),
        call_ensures(ServiceAdapter::cookie_host_suffixes, (&a,), suffixes),
        call_ensures(ServiceAdapter::post_login_hosts, (&a,), hosts),
        call_ensures(ServiceAdapter::session_file, (&a,), file),
    ensures
        label@ == a.window_label@,
        page@ == a.login_url@,
        file@ == a.session_file@,
        suffixes@.len() == a.cookie_host_suffixes@.len(),
        forall|k: int|
            0 <= k < suffixes@.len() ==> (#[trigger] suffixes@[k])@
                == a.cookie_host_suffixes@[k]@,
        hosts@.len() == a.post_login_hosts@.len(),
        forall|k: int|
            0 <= k < hosts@.len() ==> (#[trigger] hosts@[k])@ == a.post_login_hosts@[k]@,
{
    let s = crate::adapter::names_read(suffixes@);
    let h = crate::adapter::names_read(hosts@);
    assert(s.len() == suffixes@.len());
    assert(h.len() == hosts@.len());
    assert forall|k: int| 0 <= k < suffixes@.len() implies (#[trigger] suffixes@[k])@
        == a.cookie_host_suffixes@[k]@ by {
        assert(s[k] == suffixes@[k]@);
        assert(a@.cookie_host_suffixes[k] == a.cookie_host_suffixes@[k]@);
    }
    assert forall|k: int| 0 <= k < hosts@.len() implies (#[trigger] hosts@[k])@
        == a.post_login_hosts@[k]@ by {
        assert(h[k] == hosts@[k]@);
        assert(a@.post_login_hosts[k] == a.post_login_hosts@[k]@);
    }
}

} // verus!
