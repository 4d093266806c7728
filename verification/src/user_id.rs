//! Reading a Pixiv user id off a profile address.

use vstd::prelude::*;

use crate::page_url::{PageUrl, PageView};
use crate::text;

verus! {

/// The host that serves Pixiv profiles.
pub open spec fn profile_host() -> Seq<char> {
    "www.pixiv.net"@
}

/// One or more characters, each of them `0` to `9`.
pub open spec fn is_number_text(s: Seq<char>) -> bool {
    s.len() > 0 && forall|k: int| 0 <= k < s.len() ==> '0' <= #[trigger] s[k] <= '9'
}

/// The id in a profile address: its host is Pixiv's, its first path segment is
/// `users`, and the second one is a number, which is the id.
pub open spec fn profile_user_id(page: PageView) -> Option<Seq<char>> {
    match (page.host, page.segments()) {
        (Some(host), Some(segments)) => if host == profile_host() && segments.len() > 1
            && segments[0] == "users"@ && is_number_text(segments[1]) {
            Some(segments[1])
        } else {
            None
        },
        _ => None,
    }
}

/// Whether `s` is one or more ASCII digits and nothing else.
fn is_number(s: &str) -> (r: bool)
    ensures
        r == is_number_text(s@),
{
    if s.is_empty() {
        return false;
    }
    for c in it: s.chars()
        invariant
            it.seq() == s@,
            forall|k: int| 0 <= k < it.index() ==> '0' <= #[trigger] s@[k] <= '9',
    {
        if !('0' <= c && c <= '9') {
            assert(s@[it.index() as int] == c);
            return false;
        }
    }
    true
}

/// Extracts the numeric user id from a profile address such as
/// `https://www.pixiv.net/users/12345678/setting`, if it is one.
pub fn user_id_from_pixiv_url(url: &PageUrl) -> (r: Option<String>)
    ensures
        match r {
            Some(id) => profile_user_id(url@) == Some(id@),
            None => profile_user_id(url@) is None,
        },
{
    match &url.host {
        Some(host) => {
            if !text::same_text(host.as_str(), "www.pixiv.net") {
                return None;
            }
        },
        None => {
            return None;
        },
    }
    let segments = match url.path_segments() {
        Some(segments) => segments,
        None => {
            return None;
        },
    };
    assert(text::texts(segments@).len() == segments@.len());
    if segments.len() > 1 {
        assert(text::texts(segments@)[0] == segments@[0]@);
        assert(text::texts(segments@)[1] == segments@[1]@);
        if text::same_text(segments[0].as_str(), "users") && is_number(segments[1].as_str()) {
            return Some(segments[1].clone());
        }
    }
    None
}

/// `path` is `/users/`, then `id`, then nothing or a further `/` and anything.
pub open spec fn is_profile_path(path: Seq<char>, id: Seq<char>, rest: Seq<char>) -> bool {
    &&& rest.len() == 0 || rest[0] == '/'
    &&& path == "/users/"@ + id + rest
}

/// Every profile address yields its id: Pixiv's host, and a path that is
/// `/users/`, a number, and nothing or a further `/` and anything.
pub proof fn law_profile_path_yields_id(page: PageView, id: Seq<char>, rest: Seq<char>)
    requires
        page.host == Some(profile_host()),
        is_number_text(id),
        is_profile_path(page.path, id, rest),
    ensures
        profile_user_id(page) == Some(id),
{
    reveal_strlit("/users/");
    reveal_strlit("users");
    let users = "users"@;
    assert(!users.contains('/'));
    assert(!id.contains('/'));
    text::lemma_split_of_plain(users, '/');
    text::lemma_split_of_plain(id, '/');
    let tail = page.path.drop_first();
    assert(tail =~= users.push('/') + (id + rest));
    text::lemma_split_across(users, id + rest, '/');
    if rest.len() == 0 {
        assert(id + rest =~= id);
    } else {
        assert(id + rest =~= id.push('/') + rest.drop_first());
        text::lemma_split_across(id, rest.drop_first(), '/');
    }
    let segments = text::split_at_each(tail, '/');
    assert(segments[0] == users);
    assert(segments[1] == id);
}

/// Nothing else yields an id: where one is found, the host is Pixiv's, the id is
/// a number, and the path is `/users/`, that number, and nothing or a further
/// `/` and anything.
pub proof fn law_id_comes_from_profile_path(page: PageView)
    requires
        profile_user_id(page) is Some,
    ensures
        page.host == Some(profile_host()),
        is_number_text(profile_user_id(page)->0),
        exists|rest: Seq<char>| is_profile_path(page.path, profile_user_id(page)->0, rest),
{
    reveal_strlit("/users/");
    reveal_strlit("users");
    let id = profile_user_id(page)->0;
    let tail = page.path.drop_first();
    let segments = text::split_at_each(tail, '/');
    text::law_split_then_join(tail, '/');
    text::lemma_join_from_front(segments, '/');
    let after = segments.drop_first();
    let rest = if after.len() == 1 {
        Seq::<char>::empty()
    } else {
        text::lemma_join_from_front(after, '/');
        seq!['/'] + text::join_with(after.drop_first(), '/')
    };
    assert(tail =~= "users"@.push('/') + id + rest);
    assert(page.path =~= seq!['/'] + tail);
    assert(page.path =~= "/users/"@ + id + rest);
    assert(is_profile_path(page.path, id, rest));
}

} // verus!
