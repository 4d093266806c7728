use erolib::adapter::{
    adapters, all_adapters, ehentai, has_session_for, pixiv, Service, ServiceAdapter,
};
use erolib::page_url::PageUrl;
use erolib::session::JudgedCookie;

fn page(address: &str) -> PageUrl {
    PageUrl::parse(address).unwrap()
}

fn logged_in_to_pixiv(cookie: &str) -> bool {
    cookie.contains("PHPSESSID=")
}

fn logged_in_to_ehentai(cookie: &str) -> bool {
    cookie.contains("ipb_member_id=")
}

#[test]
fn window_labels_match_capabilities_json() {
    assert_eq!(pixiv().window_label, "pixiv-login");
    assert_eq!(ehentai().window_label, "ehentai-login");
}

#[test]
fn post_login_urls_are_accepted_by_predicate() {
    let pixiv = pixiv();
    for host in pixiv.post_login_hosts {
        let u = PageUrl::parse(&format!("https://{host}/")).unwrap();
        assert!(pixiv.is_post_login(&u), "{host} should be post-login for Pixiv");
    }
    let ehentai = ehentai();
    for host in ehentai.post_login_hosts {
        let u = PageUrl::parse(&format!("https://{host}/")).unwrap();
        assert!(
            ehentai.is_post_login(&u),
            "{host} should be post-login for eHentai"
        );
    }
}

#[test]
fn login_url_is_rejected_by_post_login_predicate() {
    let u = PageUrl::parse("https://accounts.pixiv.net/login").unwrap();
    assert!(!pixiv().is_post_login(&u));
    let u = PageUrl::parse("https://forums.e-hentai.org/index.php?act=Login&CODE=00").unwrap();
    assert!(!ehentai().is_post_login(&u));
}

#[test]
fn unrelated_hosts_are_rejected() {
    for u in [
        "https://example.com/",
        "https://www.pixiv.net.evil.com/",
        "https://forums.evil-e-hentai.org/",
    ] {
        let u = PageUrl::parse(u).unwrap();
        assert!(!pixiv().is_post_login(&u), "{} should not be post-login for Pixiv", u.href);
        assert!(!ehentai().is_post_login(&u), "{} should not be post-login for eHentai", u.href);
    }
}

#[test]
fn path_cannot_contain_host_literal() {
    let urls = [
        "https://www.pixiv.net/foo",
        "https://accounts.pixiv.net/login",
        "https://forums.e-hentai.org/index.php?act=Login",
        "https://e-hentai.org/some/path",
        "https://exhentai.org/g/123",
    ];
    for s in urls {
        let u = PageUrl::parse(s).unwrap();
        assert!(
            !u.path.contains("accounts.pixiv.net"),
            "URL {s} path {} unexpectedly contains host literal",
            u.path
        );
        assert!(
            !u.path.contains("e-hentai.org"),
            "URL {s} path {} unexpectedly contains host literal",
            u.path
        );
        assert!(
            !u.path.contains("exhentai.org"),
            "URL {s} path {} unexpectedly contains host literal",
            u.path
        );
    }
}

#[test]
fn cookie_host_suffixes_cover_official_domains() {
    assert!(pixiv().cookie_host_suffixes.contains(&"pixiv.net"));
    assert!(pixiv().cookie_host_suffixes.contains(&"accounts.pixiv.net"));
    assert!(ehentai().cookie_host_suffixes.contains(&"e-hentai.org"));
    assert!(ehentai().cookie_host_suffixes.contains(&"exhentai.org"));
}

#[test]
fn session_file_names_distinct() {
    assert_ne!(pixiv().session_file, ehentai().session_file);
    assert!(pixiv().session_file.ends_with(".json"));
    assert!(ehentai().session_file.ends_with(".json"));
}

#[test]
fn getters_hand_out_the_fields() {
    let p = pixiv();
    assert_eq!(p.service, Service::Pixiv);
    assert_eq!(p.window_label(), "pixiv-login");
    assert_eq!(
        p.login_url(),
        "https://accounts.pixiv.net/login?return_to=https%3A%2F%2Fwww.pixiv.net%2F"
    );
    assert_eq!(p.post_login_hosts(), &["www.pixiv.net", "accounts.pixiv.net"]);
    assert_eq!(p.cookie_host_suffixes(), &["pixiv.net", "accounts.pixiv.net"]);
    assert_eq!(p.session_file(), "pixiv_session.json");
    let e = ehentai();
    assert_eq!(e.service, Service::Ehentai);
    assert_eq!(e.window_label(), "ehentai-login");
    assert_eq!(e.login_url(), "https://forums.e-hentai.org/index.php?act=Login&CODE=00");
    assert_eq!(
        e.post_login_hosts(),
        &["e-hentai.org", "exhentai.org", "forums.e-hentai.org"]
    );
    assert_eq!(e.cookie_host_suffixes(), &["e-hentai.org", "exhentai.org"]);
    assert_eq!(e.session_file(), "ehentai_session.json");
}

#[test]
fn both_registries_hold_each_service_once() {
    let array = adapters();
    let list = all_adapters();
    assert_eq!(list.len(), 2);
    for k in 0..2 {
        assert_eq!(array[k].service, list[k].service);
        assert_eq!(array[k].window_label, list[k].window_label);
        assert_eq!(array[k].login_url, list[k].login_url);
        assert_eq!(array[k].session_file, list[k].session_file);
    }
    assert_eq!(array[0].service, Service::Pixiv);
    assert_eq!(array[1].service, Service::Ehentai);
    assert_ne!(array[0].window_label, array[1].window_label);
    assert_ne!(array[0].login_url, array[1].login_url);
}

#[test]
fn login_pages_are_not_past_login() {
    for adapter in adapters() {
        assert!(!adapter.is_post_login(&page(adapter.login_url)));
    }
}

#[test]
fn pixiv_rejects_every_path_that_begins_with_login() {
    let p = pixiv();
    assert!(!p.is_post_login(&page("https://www.pixiv.net/login.php?ref=x")));
    assert!(!p.is_post_login(&page("https://www.pixiv.net/loginish")));
    assert!(p.is_post_login(&page("https://www.pixiv.net/users/login")));
    assert!(p.is_post_login(&page("https://www.pixiv.net/Login")));
    assert!(p.is_post_login(&page("https://www.pixiv.net/log")));
    assert!(p.is_post_login(&page("https://accounts.pixiv.net/post-redirect?return_to=/login")));
}

#[test]
fn ehentai_rejects_the_login_query_on_index_php_alone() {
    let e = ehentai();
    assert!(!e.is_post_login(&page("https://e-hentai.org/index.php?CODE=00&act=Login")));
    assert!(!e.is_post_login(&page("https://e-hentai.org/index.php?fact=LoginX")));
    assert!(e.is_post_login(&page("https://e-hentai.org/index.php")));
    assert!(e.is_post_login(&page("https://e-hentai.org/index.php?")));
    assert!(e.is_post_login(&page("https://e-hentai.org/index.php?act=login")));
    assert!(e.is_post_login(&page("https://e-hentai.org/index.php?act=Logi")));
    assert!(e.is_post_login(&page("https://e-hentai.org/other.php?act=Login")));
    assert!(e.is_post_login(&page("https://e-hentai.org/login")));
}

#[test]
fn hosts_are_compared_after_normalisation_and_to_the_letter() {
    assert!(pixiv().is_post_login(&page("HTTPS://WWW.PIXIV.NET:443/")));
    assert!(!pixiv().is_post_login(&page("https://pixiv.net/")));
    assert!(!pixiv().is_post_login(&page("https://www.pixiv.net./")));
    assert!(!pixiv().is_post_login(&page("mailto:someone@www.pixiv.net")));
}

#[test]
fn an_adapter_that_lists_the_empty_host_accepts_hostless_pages() {
    let odd = ServiceAdapter {
        service: Service::Pixiv,
        window_label: "odd",
        login_url: "odd:login",
        post_login_hosts: &[""],
        cookie_host_suffixes: &[],
        session_file: "odd.json",
    };
    assert!(odd.is_post_login(&page("mailto:someone@example.com")));
    assert!(!odd.is_post_login(&page("https://example.com/")));
}

#[test]
fn no_page_is_past_login_for_both_services() {
    for address in [
        "https://www.pixiv.net/",
        "https://accounts.pixiv.net/x",
        "https://e-hentai.org/",
        "https://exhentai.org/g/1",
        "https://forums.e-hentai.org/",
        "https://example.com/",
    ] {
        let u = page(address);
        assert!(!(pixiv().is_post_login(&u) && ehentai().is_post_login(&u)));
    }
}

#[test]
fn every_host_past_login_ends_in_a_cookie_suffix() {
    for adapter in adapters() {
        for host in adapter.post_login_hosts {
            assert!(adapter.cookie_host_suffixes.iter().any(|suffix| host.ends_with(suffix)));
        }
    }
}

#[test]
fn a_host_that_goes_on_after_a_listed_one_is_rejected() {
    for adapter in adapters() {
        for host in adapter.post_login_hosts {
            for rest in [".evil.com", "x", "."] {
                let u = page(&format!("https://{host}{rest}/"));
                assert!(!pixiv().is_post_login(&u));
                assert!(!ehentai().is_post_login(&u));
            }
        }
    }
}

#[test]
fn a_session_is_judged_by_the_test_of_its_service() {
    for (cookie, on_pixiv, on_ehentai) in [
        ("PHPSESSID=1; a=b", true, false),
        ("ipb_member_id=7", false, true),
        ("PHPSESSID=1; ipb_member_id=7", true, true),
        ("", false, false),
    ] {
        let judged = JudgedCookie::judge(cookie, logged_in_to_pixiv, logged_in_to_ehentai);
        assert_eq!(judged.text(), cookie);
        assert_eq!(judged.is_session_of(Service::Pixiv), on_pixiv);
        assert_eq!(judged.is_session_of(Service::Ehentai), on_ehentai);
        assert_eq!(has_session_for(Service::Pixiv, &judged), on_pixiv);
        assert_eq!(has_session_for(Service::Ehentai, &judged), on_ehentai);
        assert_eq!(pixiv().has_session(&judged), on_pixiv);
        assert_eq!(ehentai().has_session(&judged), on_ehentai);
    }
}

#[test]
fn only_the_service_of_an_adapter_decides_about_a_session() {
    let odd = ServiceAdapter {
        service: Service::Ehentai,
        window_label: "odd",
        login_url: "odd:login",
        post_login_hosts: &[],
        cookie_host_suffixes: &[],
        session_file: "odd.json",
    };
    for cookie in ["PHPSESSID=1", "ipb_member_id=7", ""] {
        let judged = JudgedCookie::judge(cookie, logged_in_to_pixiv, logged_in_to_ehentai);
        assert_eq!(odd.has_session(&judged), ehentai().has_session(&judged));
        assert_eq!(odd.has_session(&judged), has_session_for(Service::Ehentai, &judged));
    }
}
