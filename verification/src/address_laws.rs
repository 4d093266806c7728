//! What the operations on texts and addresses give, told from what goes in and
//! what comes out.

use vstd::prelude::*;

use crate::page_url::PageUrl;
use crate::pixiv_login::{login_page, pixiv_login_page};
use crate::text;
use crate::user_id::user_id_from_pixiv_url;
use crate::user_id;

verus! {

/// A text contains another iff it is something, that text, and something.
pub proof fn law_contains(s: &str, pattern: &str, r: bool)
    requires
        call_ensures(text::contains, (s, pattern), r),
    ensures
        r == exists|before: Seq<char>, after: Seq<char>|
            s@ == #[trigger] (before + pattern@ + after),
{
    text::lemma_piece_is_between(s@, pattern@);
}

/// A text begins with another iff it is that text and something.
pub proof fn law_starts_with(s: &str, prefix: &str, r: bool)
    requires
        call_ensures(text::starts_with, (s, prefix), r),
    ensures
        r == exists|after: Seq<char>| s@ == #[trigger] (prefix@ + after),
{
    if r {
        assert(s@ =~= prefix@ + s@.skip(prefix@.len() as int));
    }
    if exists|after: Seq<char>| s@ == #[trigger] (prefix@ + after) {
        let after = choose|after: Seq<char>| s@ == #[trigger] (prefix@ + after);
        assert(s@.subrange(0, prefix@.len() as int) =~= prefix@);
    }
}

/// Splitting a text without the separator gives that text alone.
pub proof fn law_split_of_plain_text(s: &str, separator: char, r: Vec<String>)
    requires
        call_ensures(text::split, (s, separator), r),
        forall|k: int| 0 <= k < s@.len() ==> #[trigger] s@[k] != separator,
    ensures
        r@.len() == 1,
        r@[0]@ == s@,
{
    text::lemma_split_of_plain(s@, separator);
    assert(text::texts(r@).len() == r@.len());
    assert(text::texts(r@)[0] == r@[0]@);
}

/// Splitting two texts with the separator between them gives the pieces of the
/// first, then the pieces of the second.
pub proof fn law_split_of_two_texts(
    whole: &str,
    left: &str,
    right: &str,
    separator: char,
    all: Vec<String>,
    first: Vec<String>,
    second: Vec<String>,
)
    requires
        whole@ == left@ + seq![separator] + right@,
        call_ensures(text::split, (whole, separator), all),
        call_ensures(text::split, (left, separator), first),
        call_ensures(text::split, (right, separator), second),
    ensures
        all@.len() == first@.len() + second@.len(),
        forall|k: int| 0 <= k < first@.len() ==> (#[trigger] all@[k])@ == first@[k]@,
        forall|k: int|
            0 <= k < second@.len() ==> all@[first@.len() + k]@ == (#[trigger] second@[k])@,
{
    assert(whole@ =~= left@.push(separator) + right@);
    text::lemma_split_across(left@, right@, separator);
    let pieces = text::texts(all@);
    assert(pieces == text::texts(first@) + text::texts(second@));
    assert(pieces.len() == all@.len());
    assert forall|k: int| 0 <= k < first@.len() implies (#[trigger] all@[k])@ == first@[k]@ by {
        assert(pieces[k] == all@[k]@);
        assert(text::texts(first@)[k] == first@[k]@);
    }
    assert forall|k: int| 0 <= k < second@.len() implies all@[first@.len() + k]@ == (
    #[trigger] second@[k])@ by {
        assert(pieces[first@.len() + k] == all@[first@.len() + k]@);
        assert(text::texts(second@)[k] == second@[k]@);
    }
}

/// The view of a page reads each field as it stands.
pub proof fn law_page_reads_its_fields(page: PageUrl)
    ensures
        page@.href == page.href@,
        page@.path == page.path@,
        page.host matches Some(host) ==> page@.host == Some(host@),
        page.host is None ==> page@.host is None,
        page.query matches Some(query) ==> page@.query == Some(query@),
        page.query is None ==> page@.query is None,
{
}

/// Parsing goes by the text alone: two texts that read the same parse into the
/// same parts, or fail with the same message.
pub proof fn law_parsing_is_a_function(
    one: &str,
    other: &str,
    r: Result<PageUrl, String>,
    s: Result<PageUrl, String>,
)
    requires
        one@ == other@,
        call_ensures(PageUrl::parse, (one,), r),
        call_ensures(PageUrl::parse, (other,), s),
    ensures
        r is Ok <==> s is Ok,
        r is Ok ==> r->Ok_0.href@ == s->Ok_0.href@ && r->Ok_0.path@ == s->Ok_0.path@ && r->Ok_0@
            == s->Ok_0@,
        r is Err ==> r->Err_0@ == s->Err_0@,
{
    if r is Ok && s is Ok {
        law_page_reads_its_fields(r->Ok_0);
        law_page_reads_its_fields(s->Ok_0);
    }
}

/// A page has path segments iff its path begins with `/`, and they are what
/// splitting the rest of the path at each `/` gives.
pub proof fn law_path_segments(
    page: PageUrl,
    rest: &str,
    segments: Option<Vec<String>>,
    pieces: Vec<String>,
)
    requires
        call_ensures(PageUrl::path_segments, (&page,), segments),
        call_ensures(text::split, (rest, '/'), pieces),
    ensures
        segments is Some <==> page.path@.len() > 0 && page.path@[0] == '/',
        page.path@ == seq!['/'] + rest@ ==> segments is Some && segments->0@.len() == pieces@.len()
            && forall|k: int|
            0 <= k < pieces@.len() ==> (#[trigger] segments->0@[k])@ == pieces@[k]@,
{
    if page.path@ == seq!['/'] + rest@ {
        assert(page.path@.drop_first() =~= rest@);
        let found = text::texts(segments->0@);
        assert(found == text::texts(pieces@));
        assert(found.len() == segments->0@.len());
        assert(text::texts(pieces@).len() == pieces@.len());
        assert forall|k: int| 0 <= k < pieces@.len() implies (#[trigger] segments->0@[k])@
            == pieces@[k]@ by {
            assert(found[k] == segments->0@[k]@);
            assert(text::texts(pieces@)[k] == pieces@[k]@);
        }
    }
}

/// A page on `www.pixiv.net` whose path is `/users/`, a number in the digits `0`
/// to `9`, and then nothing or a `/` and anything, yields that number.
pub proof fn law_profile_page_yields_its_number(
    page: PageUrl,
    id: Seq<char>,
    rest: Seq<char>,
    r: Option<String>,
)
    requires
        call_ensures(user_id_from_pixiv_url, (&page,), r),
        page.host matches Some(host) && host@ == "www.pixiv.net"@,
        id.len() > 0,
        forall|k: int| 0 <= k < id.len() ==> '0' <= #[trigger] id[k] <= '9',
        rest.len() == 0 || rest[0] == '/',
        page.path@ == "/users/"@ + id + rest,
    ensures
        r matches Some(found) && found@ == id,
{
    user_id::law_profile_path_yields_id(page@, id, rest);
}

/// Where a page yields a user id, the page is on `www.pixiv.net`, the id is a
/// number in the digits `0` to `9`, and the path is `/users/`, that number, and
/// then nothing or a `/` and anything.
pub proof fn law_user_id_is_the_number_in_the_path(page: PageUrl, r: Option<String>)
    requires
        call_ensures(user_id_from_pixiv_url, (&page,), r),
        r is Some,
    ensures
        page.host matches Some(host) && host@ == "www.pixiv.net"@,
        r->0@.len() > 0,
        forall|k: int| 0 <= k < r->0@.len() ==> '0' <= #[trigger] r->0@[k] <= '9',
        exists|rest: Seq<char>|
            (rest.len() == 0 || rest[0] == '/') && page.path@ == #[trigger] ("/users/"@ + r->0@
                + rest),
{
    user_id::law_id_comes_from_profile_path(page@);
    let rest = choose|rest: Seq<char>| user_id::is_profile_path(page@.path, r->0@, rest);
    assert(page.path@ == "/users/"@ + r->0@ + rest);
}

/// A login address that parsed is the page to open; the message of one that did
/// not is passed on behind `bad pixiv login url: `.
pub proof fn law_login_page(parsed: Result<PageUrl, String>, r: Result<PageUrl, String>)
    requires
        call_ensures(login_page, (parsed,), r),
    ensures
        parsed is Ok ==> r == parsed,
        parsed matches Err(message) ==> (r matches Err(shown) && shown@ == "bad pixiv login url: "@
            + message@),
{
}

/// The Pixiv login window opens on what its login address parses into.
pub proof fn law_pixiv_login_page(
    address: &str,
    parsed: Result<PageUrl, String>,
    r: Result<PageUrl, String>,
)
    requires
        address@ == "https://accounts.pixiv.net/login?return_to=https%3A%2F%2Fwww.pixiv.net%2F"@,
        call_ensures(PageUrl::parse, (address,), parsed),
        call_ensures(pixiv_login_page, (), r),
    ensures
        parsed matches Ok(page) ==> (r matches Ok(shown) && shown@ == page@),
        parsed matches Err(message) ==> (r matches Err(shown) && shown@ == "bad pixiv login url: "@
            + message@),
{
}

} // verus!
