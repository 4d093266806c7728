use erolib::page_url::PageUrl;
use erolib::pixiv_login::{login_page, pixiv_login_page};
use erolib::text;
use erolib::user_id::user_id_from_pixiv_url;

fn page(address: &str) -> PageUrl {
    PageUrl::parse(address).unwrap()
}

#[test]
fn parsing_takes_an_address_apart() {
    let u = page("https://Example.COM/a b/c?x=1#end");
    assert_eq!(u.href, "https://example.com/a%20b/c?x=1#end");
    assert_eq!(u.host.as_deref(), Some("example.com"));
    assert_eq!(u.path, "/a%20b/c");
    assert_eq!(u.query.as_deref(), Some("x=1"));
    let bare = page("data:text/plain,Stuff");
    assert_eq!(bare.host, None);
    assert_eq!(bare.path, "text/plain,Stuff");
    assert_eq!(bare.query, None);
}

#[test]
fn parsing_agrees_with_the_url_crate() {
    for address in [
        "https://www.pixiv.net/users/12345678/setting?x#y",
        "https://example.com",
        "foo://bar",
        "http://[::1]/%41",
    ] {
        let theirs = url::Url::parse(address).unwrap();
        let ours = page(address);
        assert_eq!(ours.href, theirs.as_str());
        assert_eq!(ours.host.as_deref(), theirs.host_str());
        assert_eq!(ours.path, theirs.path());
        assert_eq!(ours.query.as_deref(), theirs.query());
        let segments: Option<Vec<String>> =
            theirs.path_segments().map(|all| all.map(String::from).collect());
        assert_eq!(ours.path_segments(), segments);
    }
}

#[test]
fn a_parse_error_says_what_is_wrong() {
    assert_eq!(PageUrl::parse("/login").unwrap_err(), "relative URL without a base");
    assert_eq!(PageUrl::parse("https://").unwrap_err(), "empty host");
    assert_eq!(PageUrl::parse("https://a:x/").unwrap_err(), "invalid port number");
}

#[test]
fn path_segments_are_the_pieces_after_the_first_slash() {
    assert_eq!(page("https://example.com").path_segments().unwrap(), vec![""]);
    assert_eq!(page("https://example.com/foo/bar").path_segments().unwrap(), vec!["foo", "bar"]);
    assert_eq!(page("https://example.com//a/").path_segments().unwrap(), vec!["", "a", ""]);
    assert!(page("data:text/plain,HelloWorld").path_segments().is_none());
    assert!(page("foo://bar").path_segments().is_none());
}

#[test]
fn the_login_page_is_on_the_accounts_host() {
    let u = pixiv_login_page().unwrap();
    assert_eq!(u.host.as_deref(), Some("accounts.pixiv.net"));
    assert_eq!(u.path, "/login");
    assert_eq!(u.query.as_deref(), Some("return_to=https%3A%2F%2Fwww.pixiv.net%2F"));
    assert_eq!(
        u.href,
        "https://accounts.pixiv.net/login?return_to=https%3A%2F%2Fwww.pixiv.net%2F"
    );
}

#[test]
fn a_bad_login_address_is_reported() {
    assert_eq!(
        login_page(PageUrl::parse("nonsense")).unwrap_err(),
        "bad pixiv login url: relative URL without a base"
    );
    assert_eq!(login_page(Ok(page("https://a.b/"))).unwrap().href, "https://a.b/");
}

#[test]
fn a_profile_address_yields_its_id() {
    for address in [
        "https://www.pixiv.net/users/12345678",
        "https://www.pixiv.net/users/12345678/",
        "https://www.pixiv.net/users/12345678/setting",
        "https://www.pixiv.net/users/12345678?lang=en",
    ] {
        assert_eq!(user_id_from_pixiv_url(&page(address)).as_deref(), Some("12345678"));
    }
    assert_eq!(
        user_id_from_pixiv_url(&page("http://www.pixiv.net/users/0")).as_deref(),
        Some("0")
    );
}

#[test]
fn other_addresses_yield_no_id() {
    for address in [
        "https://accounts.pixiv.net/users/1",
        "https://www.pixiv.net/",
        "https://www.pixiv.net/users",
        "https://www.pixiv.net/users/",
        "https://www.pixiv.net/users//1",
        "https://www.pixiv.net/users/12a",
        "https://www.pixiv.net/users/-1",
        "https://www.pixiv.net/en/users/1",
        "https://www.pixiv.net/Users/1",
        "https://www.pixiv.net/users/%31",
        "mailto:users/1",
    ] {
        assert_eq!(user_id_from_pixiv_url(&page(address)), None, "{address}");
    }
    let wide = PageUrl {
        href: String::new(),
        host: Some("www.pixiv.net".to_string()),
        path: "/users/\u{0661}".to_string(),
        query: None,
    };
    assert_eq!(user_id_from_pixiv_url(&wide), None);
}

#[test]
fn text_helpers_agree_with_std() {
    let samples = ["", "a", "ab", "aab", "abab", "b", "\u{e9}a", "a\u{1f600}b", "/", "a/", "/a//b"];
    for s in samples {
        for t in samples {
            assert_eq!(text::same_text(s, t), s == t);
            assert_eq!(text::starts_with(s, t), s.starts_with(t));
            assert_eq!(text::contains(s, t), s.contains(t));
        }
        let pieces: Vec<&str> = s.split('/').collect();
        assert_eq!(text::split(s, '/'), pieces);
        assert_eq!(text::split(s, '/').join("/"), s);
    }
}
