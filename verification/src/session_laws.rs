//! What is found out about a cookie string, and what a session gives back.

use vstd::prelude::*;

use crate::adapter::{has_session_for, Service, ServiceAdapter};
use crate::pixiv_login::{persist, PixivLogin, PixivLoginResult, PixivSession};
use crate::session::JudgedCookie;

verus! {

/// A judged cookie string keeps its text, and a service's question about it is
/// answered by the test of that service and by nothing else, however it is
/// asked: whatever comes back is an answer of that test to that very string.
pub proof fn law_session_is_what_the_test_says<P: Fn(&str) -> bool, E: Fn(&str) -> bool>(
    service: Service,
    adapter: ServiceAdapter,
    cookie: &str,
    has_pixiv_session: P,
    has_ehentai_session: E,
    judged: JudgedCookie,
    text: &str,
    by_cookie: bool,
    by_service: bool,
    by_adapter: bool,
)
    requires
        call_ensures(
            JudgedCookie::judge::<P, E>,
            (cookie, has_pixiv_session, has_ehentai_session),
            judged,
        ),
        call_ensures(JudgedCookie::text, (&judged,), text),
        call_ensures(JudgedCookie::is_session_of, (&judged, service), by_cookie),
        call_ensures(has_session_for, (service, &judged), by_service),
        call_ensures(ServiceAdapter::has_session, (&adapter, &judged), by_adapter),
        adapter.service == service,
    ensures
        text@ == cookie@,
        by_cookie == by_service,
        by_adapter == by_service,
        service is Pixiv ==> call_ensures(has_pixiv_session, (cookie,), by_service),
        service is Ehentai ==> call_ensures(has_ehentai_session, (cookie,), by_service),
{
}

/// The answer for a service is the verdict of its test, with nothing added: not
/// the text of the cookie string, not the verdict of the other test.
pub proof fn law_session_is_the_verdict(
    judged: JudgedCookie,
    adapter: ServiceAdapter,
    on_pixiv: bool,
    on_ehentai: bool,
    by_adapter: bool,
)
    requires
        call_ensures(has_session_for, (Service::Pixiv, &judged), on_pixiv),
        call_ensures(has_session_for, (Service::Ehentai, &judged), on_ehentai),
        call_ensures(ServiceAdapter::has_session, (&adapter, &judged), by_adapter),
    ensures
        on_pixiv == judged@.pixiv,
        on_ehentai == judged@.ehentai,
        judged@.is_session_of(Service::Pixiv) == judged@.pixiv,
        judged@.is_session_of(Service::Ehentai) == judged@.ehentai,
        adapter.service is Pixiv ==> by_adapter == judged@.pixiv,
        adapter.service is Ehentai ==> by_adapter == judged@.ehentai,
{
}

/// The login kept of a result has the result's cookie, user id and user name,
/// each in the field of its name.
pub proof fn law_kept_login_has_the_same_fields(login: PixivLoginResult)
    ensures
        login.as_login().cookie == login.cookie,
        login.as_login().user_id == login.user_id,
        login.as_login().user_name == login.user_name,
{
}

/// A session gives back what was kept in it: after a result was kept, the login
/// that is read has the result's cookie, user id and user name.
pub proof fn law_kept_login_reads_back(
    session: PixivSession,
    login: PixivLoginResult,
    read: Option<&PixivLogin>,
)
    requires
        session@ == Some(login.as_login()),
        call_ensures(PixivSession::get_login, (&session,), read),
    ensures
        read matches Some(kept) && kept.cookie == login.cookie && kept.user_id == login.user_id
            && kept.user_name == login.user_name,
{
}

/// A fresh session gives no login back.
pub proof fn law_fresh_session_is_empty(session: PixivSession, read: Option<&PixivLogin>)
    requires
        call_ensures(PixivSession::new, (), session),
        call_ensures(PixivSession::get_login, (&session,), read),
    ensures
        read is None,
{
}

/// Keeping a result, whatever the session held before, and then reading the
/// session gives the result's cookie, user id and user name.
pub proof fn law_persist_then_read(
    session: &mut PixivSession,
    after: PixivSession,
    login: PixivLoginResult,
    read: Option<&PixivLogin>,
)
    requires
        call_ensures(persist, (session, &login), ()),
        after == *final(session),
        call_ensures(PixivSession::get_login, (&after,), read),
    ensures
        read matches Some(kept) && kept.cookie == login.cookie && kept.user_id == login.user_id
            && kept.user_name == login.user_name,
{
}

} // verus!
