//! What is particular to each service in the cookie-capture pipeline.
//!
//! Pixiv and eHentai share one capture flow: open a window on the login page,
//! poll its address until it lands on a page past login, read the cookies, and
//! keep the cookie string in the service's session file. An adapter holds the
//! parts that differ.

use vstd::prelude::*;

use crate::page_url::{PageUrl, PageView};
use crate::session::{JudgedCookie, JudgedView};
use crate::text;

verus! {

/// Tells the login flows apart.
#[derive(Debug, Clone, Copy, PartialEq, Eq, Hash, Structural)]
pub enum Service {
    Pixiv,
    Ehentai,
}

/// The data that differ from service to service.
pub struct ServiceAdapter {
    pub service: Service,
    pub window_label: &'static str,
    pub login_url: &'static str,
    pub post_login_hosts: &'static [&'static str],
    pub cookie_host_suffixes: &'static [&'static str],
    pub session_file: &'static str,
}

/// What a [`ServiceAdapter`] reads, field by field.
pub struct AdapterView {
    pub service: Service,
    pub window_label: Seq<char>,
    pub login_url: Seq<char>,
    pub post_login_hosts: Seq<Seq<char>>,
    pub cookie_host_suffixes: Seq<Seq<char>>,
    pub session_file: Seq<char>,
}

/// What each of `names` reads.
pub open spec fn names_read(names: Seq<&'static str>) -> Seq<Seq<char>> {
    names.map_values(|name: &'static str| name@)
}

impl View for ServiceAdapter {
    type V = AdapterView;

    open spec fn view(&self) -> AdapterView {
        AdapterView {
            service: self.service,
            window_label: self.window_label@,
            login_url: self.login_url@,
            post_login_hosts: names_read(self.post_login_hosts@),
            cookie_host_suffixes: names_read(self.cookie_host_suffixes@),
            session_file: self.session_file@,
        }
    }
}

/// The page of a service that still asks for the login. Pixiv's pages of that
/// kind begin with `/login`. eHentai's is `/index.php`, a path that other pages
/// share, so there the query has to name the login as well.
pub open spec fn is_login_endpoint(service: Service, page: PageView) -> bool {
    match service {
        Service::Pixiv => "/login"@.is_prefix_of(page.path),
        Service::Ehentai => page.path == "/index.php"@ && (page.query matches Some(query)
            && text::has_piece(query, "act=Login"@)),
    }
}

impl AdapterView {
    /// A page past login: on a listed host, and not a login endpoint.
    pub open spec fn accepts(self, page: PageView) -> bool {
        self.post_login_hosts.contains(page.host_or_empty()) && !is_login_endpoint(
            self.service,
            page,
        )
    }

    /// The cookie string looks like a logged-in session of the adapter's service.
    pub open spec fn finds_session(self, cookie: JudgedView) -> bool {
        cookie.is_session_of(self.service)
    }
}

/// The adapter of Pixiv.
pub open spec fn pixiv_view() -> AdapterView {
    AdapterView {
        service: Service::Pixiv,
        window_label: "pixiv-login"@,
        login_url: "https://accounts.pixiv.net/login?return_to=https%3A%2F%2Fwww.pixiv.net%2F"@,
        post_login_hosts: seq!["www.pixiv.net"@, "accounts.pixiv.net"@],
        cookie_host_suffixes: seq!["pixiv.net"@, "accounts.pixiv.net"@],
        session_file: "pixiv_session.json"@,
    }
}

/// The adapter of eHentai.
pub open spec fn ehentai_view() -> AdapterView {
    AdapterView {
        service: Service::Ehentai,
        window_label: "ehentai-login"@,
        login_url: "https://forums.e-hentai.org/index.php?act=Login&CODE=00"@,
        post_login_hosts: seq!["e-hentai.org"@, "exhentai.org"@, "forums.e-hentai.org"@],
        cookie_host_suffixes: seq!["e-hentai.org"@, "exhentai.org"@],
        session_file: "ehentai_session.json"@,
    }
}

/// Every registered adapter, in the order in which the pipeline walks them.
pub open spec fn registry() -> Seq<AdapterView> {
    seq![pixiv_view(), ehentai_view()]
}

/// The adapter of Pixiv.
pub fn pixiv() -> (r: ServiceAdapter)
    ensures
        r@ == pixiv_view(),
{
    let r = ServiceAdapter {
        service: Service::Pixiv,
        window_label: "pixiv-login",
        login_url: "https://accounts.pixiv.net/login?return_to=https%3A%2F%2Fwww.pixiv.net%2F",
        post_login_hosts: &["www.pixiv.net", "accounts.pixiv.net"],
        cookie_host_suffixes: &["pixiv.net", "accounts.pixiv.net"],
        session_file: "pixiv_session.json",
    };
    assert(r@.post_login_hosts =~= pixiv_view().post_login_hosts);
    assert(r@.cookie_host_suffixes =~= pixiv_view().cookie_host_suffixes);
    r
}

/// The adapter of eHentai.
pub fn ehentai() -> (r: ServiceAdapter)
    ensures
        r@ == ehentai_view(),
{
    let r = ServiceAdapter {
        service: Service::Ehentai,
        window_label: "ehentai-login",
        login_url: "https://forums.e-hentai.org/index.php?act=Login&CODE=00",
        post_login_hosts: &["e-hentai.org", "exhentai.org", "forums.e-hentai.org"],
        cookie_host_suffixes: &["e-hentai.org", "exhentai.org"],
        session_file: "ehentai_session.json",
    };
    assert(r@.post_login_hosts =~= ehentai_view().post_login_hosts);
    assert(r@.cookie_host_suffixes =~= ehentai_view().cookie_host_suffixes);
    r
}

/// One adapter for each service.
pub fn adapters() -> (r: [ServiceAdapter; 2])
    ensures
        r@.map_values(|adapter: ServiceAdapter| adapter@) == registry(),
{
    let r = [pixiv(), ehentai()];
    assert(r@.map_values(|adapter: ServiceAdapter| adapter@) =~= registry());
    r
}

/// Every registered adapter, as a list to walk.
pub fn all_adapters() -> (r: Vec<ServiceAdapter>)
    ensures
        r@.map_values(|adapter: ServiceAdapter| adapter@) == registry(),
{
    let mut r: Vec<ServiceAdapter> = Vec::new();
    r.push(pixiv());
    r.push(ehentai());
    assert(r@.map_values(|adapter: ServiceAdapter| adapter@) =~= registry());
    r
}

/// Whether `cookie` looks like a logged-in session of `service`.
pub fn has_session_for(service: Service, cookie: &JudgedCookie) -> (r: bool)
    ensures
        r == cookie@.is_session_of(service),
{
    cookie.is_session_of(service)
}

/// Whether `name` is one of `names`.
fn lists(names: &[&'static str], name: &str) -> (r: bool)
    ensures
        r == names_read(names@).contains(name@),
{
    for k in 0..names.len()
        invariant
            forall|j: int| 0 <= j < k ==> (#[trigger] names@[j])@ != name@,
    {
        if text::same_text(names[k], name) {
            assert(names_read(names@)[k as int] == name@);
            return true;
        }
    }
    assert forall|j: int| 0 <= j < names@.len() implies #[trigger] names_read(names@)[j]
        != name@ by {
        assert(names@[j]@ != name@);
    }
    false
}

impl ServiceAdapter {
    /// Whether `url` is past login: on one of the post-login hosts, and not on
    /// the service's login endpoint.
    pub fn is_post_login(&self, url: &PageUrl) -> (r: bool)
        ensures
            r == self@.accepts(url@),
    {
        let host = match &url.host {
            Some(host) => host.as_str(),
            None => "",
        };
        proof {
            reveal_strlit("");
            assert(""@ =~= Seq::<char>::empty());
        }
        if !lists(self.post_login_hosts, host) {
            return false;
        }
        let path = url.path.as_str();
        match self.service {
            Service::Pixiv => !text::starts_with(path, "/login"),
            Service::Ehentai => {
                let names_login = match &url.query {
                    Some(query) => text::contains(query.as_str(), "act=Login"),
                    None => false,
                };
                !(text::same_text(path, "/index.php") && names_login)
            },
        }
    }

    /// Label of the login window.
    pub fn window_label(&self) -> (r: &'static str)
        ensures
            r@ == self@.window_label,
    {
        self.window_label
    }

    /// The page that the login window opens first.
    pub fn login_url(&self) -> (r: &'static str)
        ensures
            r@ == self@.login_url,
    {
        self.login_url
    }

    /// Suffixes of the hosts whose cookies belong to this service.
    pub fn cookie_host_suffixes(&self) -> (r: &'static [&'static str])
        ensures
            names_read(r@) == self@.cookie_host_suffixes,
    {
        self.cookie_host_suffixes
    }

    /// Hosts that count as past login; the capture starts once the window lands
    /// on one of them.
    pub fn post_login_hosts(&self) -> (r: &'static [&'static str])
        ensures
            names_read(r@) == self@.post_login_hosts,
    {
        self.post_login_hosts
    }

    /// Name of the file in which the session is kept.
    pub fn session_file(&self) -> (r: &'static str)
        ensures
            r@ == self@.session_file,
    {
        self.session_file
    }

    /// Whether `cookie` looks like a logged-in session of this adapter's service.
    pub fn has_session(&self, cookie: &JudgedCookie) -> (r: bool)
        ensures
            r == self@.finds_session(cookie@),
    {
        cookie.is_session_of(self.service)
    }
}

/// Third-party pages never count as past login, whatever their path and query:
/// the host has to be a listed one, to the letter.
pub proof fn law_unlisted_host_is_rejected(adapter: AdapterView, page: PageView)
    requires
        !adapter.post_login_hosts.contains(page.host_or_empty()),
    ensures
        !adapter.accepts(page),
{
}

/// A host that only begins like a listed one (`www.pixiv.net.evil.com`) is past
/// login for no registered service.
pub proof fn law_continued_host_is_rejected(page: PageView, j: int, k: int, host: Seq<char>)
    requires
        0 <= j < registry().len(),
        0 <= k < registry().len(),
        registry()[j].post_login_hosts.contains(host),
        host.is_prefix_of(page.host_or_empty()),
        host != page.host_or_empty(),
    ensures
        !registry()[k].accepts(page),
{
    reveal_strlit("www.pixiv.net");
    reveal_strlit("accounts.pixiv.net");
    reveal_strlit("e-hentai.org");
    reveal_strlit("exhentai.org");
    reveal_strlit("forums.e-hentai.org");
    let shown = page.host_or_empty();
    if shown.len() == host.len() {
        assert(shown =~= host);
    }
    assert(shown[0] == host[0] && shown[1] == host[1]);
}

/// A login endpoint never counts as past login, on whatever host.
pub proof fn law_login_endpoint_is_rejected(adapter: AdapterView, page: PageView)
    requires
        is_login_endpoint(adapter.service, page),
    ensures
        !adapter.accepts(page),
{
}

/// The front page of every listed host counts as past login.
pub proof fn law_front_page_is_accepted(adapter: AdapterView, page: PageView)
    requires
        adapter.post_login_hosts.contains(page.host_or_empty()),
        page.path == "/"@,
    ensures
        adapter.accepts(page),
{
    reveal_strlit("/");
    reveal_strlit("/login");
    reveal_strlit("/index.php");
}

/// A page without a host is past login for no registered service.
pub proof fn law_hostless_page_is_rejected(page: PageView, k: int)
    requires
        page.host is None,
        0 <= k < registry().len(),
    ensures
        !registry()[k].accepts(page),
{
    lemma_host_lengths();
}

/// The lengths of the listed hosts of each service: a host of any other length is
/// not listed.
pub proof fn lemma_host_lengths()
    ensures
        forall|host: Seq<char>| #[trigger]
            pixiv_view().post_login_hosts.contains(host) ==> host.len() == 13 || host.len() == 18,
        forall|host: Seq<char>| #[trigger]
            ehentai_view().post_login_hosts.contains(host) ==> host.len() == 12 || host.len()
                == 19,
{
    reveal_strlit("www.pixiv.net");
    reveal_strlit("accounts.pixiv.net");
    reveal_strlit("e-hentai.org");
    reveal_strlit("exhentai.org");
    reveal_strlit("forums.e-hentai.org");
}

/// No page is past login for two services at once.
pub proof fn law_services_share_no_page(page: PageView, j: int, k: int)
    requires
        0 <= j < k < registry().len(),
    ensures
        !(registry()[j].accepts(page) && registry()[k].accepts(page)),
{
    lemma_host_lengths();
}

/// Registered adapters are told apart by service, window label, login page and
/// session file. A logout from one service therefore leaves the session of the
/// other alone.
pub proof fn law_adapters_are_distinct(j: int, k: int)
    requires
        0 <= j < k < registry().len(),
    ensures
        registry()[j].service != registry()[k].service,
        registry()[j].window_label != registry()[k].window_label,
        registry()[j].login_url != registry()[k].login_url,
        registry()[j].session_file != registry()[k].session_file,
{
    reveal_strlit("pixiv-login");
    reveal_strlit("ehentai-login");
    reveal_strlit("https://accounts.pixiv.net/login?return_to=https%3A%2F%2Fwww.pixiv.net%2F");
    reveal_strlit("https://forums.e-hentai.org/index.php?act=Login&CODE=00");
    reveal_strlit("pixiv_session.json");
    reveal_strlit("ehentai_session.json");
    assert(pixiv_view().window_label.len() < ehentai_view().window_label.len());
    assert(pixiv_view().login_url.len() > ehentai_view().login_url.len());
    assert(pixiv_view().session_file.len() < ehentai_view().session_file.len());
}

/// Every session file is a JSON file.
pub proof fn law_session_files_are_json(k: int)
    requires
        0 <= k < registry().len(),
    ensures
        ".json"@.is_suffix_of(registry()[k].session_file),
{
    reveal_strlit(".json");
    reveal_strlit("pixiv_session.json");
    reveal_strlit("ehentai_session.json");
}

/// Cookies of every page past login belong to the service: each listed host
/// ends in one of the service's cookie host suffixes.
pub proof fn law_cookie_suffixes_cover_hosts(k: int, host: Seq<char>)
    requires
        0 <= k < registry().len(),
        registry()[k].post_login_hosts.contains(host),
    ensures
        exists|j: int|
            0 <= j < registry()[k].cookie_host_suffixes.len() && (
            #[trigger] registry()[k].cookie_host_suffixes[j]).is_suffix_of(host),
{
    reveal_strlit("www.pixiv.net");
    reveal_strlit("pixiv.net");
    reveal_strlit("accounts.pixiv.net");
    reveal_strlit("e-hentai.org");
    reveal_strlit("exhentai.org");
    reveal_strlit("forums.e-hentai.org");
    let suffixes = registry()[k].cookie_host_suffixes;
    if host == "exhentai.org"@ {
        assert(suffixes[1].is_suffix_of(host));
    } else {
        assert(suffixes[0].is_suffix_of(host));
    }
}

/// Asking an adapter and asking for its service is one question, and no other
/// field of an adapter has a say in the answer.
pub proof fn law_session_depends_on_service_alone(
    a: AdapterView,
    b: AdapterView,
    cookie: JudgedView,
)
    requires
        a.service == b.service,
    ensures
        a.finds_session(cookie) == cookie.is_session_of(a.service),
        a.finds_session(cookie) == b.finds_session(cookie),
{
}

} // verus!
