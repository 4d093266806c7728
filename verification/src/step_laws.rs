//! What each answer does to the login flow, for every phase, and what a login
//! and a wait come to from beginning to end.

use vstd::prelude::*;

use crate::flow_laws::{run, Answer};
use crate::login_flow::{Event, NameReply, Origin, Phase, MAX_TICKS, POLL_INTERVAL_MS};
use crate::page_url::PageUrl;
use crate::pixiv_login::{PixivLogin, PixivLoginResult, PixivSession};

verus! {

/// The window is looked at twice a second, for ten minutes.
pub proof fn law_poll_lasts_ten_minutes()
    ensures
        2 * POLL_INTERVAL_MS == 1000,
        MAX_TICKS * POLL_INTERVAL_MS == 10 * 60 * 1000,
{
}

/// A freshly opened window is first slept on, with no tick counted.
pub proof fn law_opened_window_starts_at_zero(r: Phase)
    requires
        call_ensures(Phase::on_opened, (), r),
    ensures
        r == (Phase::Sleep { ticks: 0 }),
{
}

/// A destroyed window calls for one more capture iff the session gives no login
/// back; otherwise nothing is left to do.
pub proof fn law_destroyed_window_asks_the_session(
    session: PixivSession,
    read: Option<&PixivLogin>,
    r: Phase,
)
    requires
        call_ensures(PixivSession::get_login, (&session,), read),
        call_ensures(Phase::on_destroyed, (&session,), r),
    ensures
        read is None ==> r == (Phase::CaptureCookies { origin: Origin::Destroyed }),
        read is Some ==> r is Done,
{
}

/// Each sleep counts one tick and leads to a look at the window, up to the tick
/// that completes ten minutes; the sleep after it leads to the last capture.
pub proof fn law_sleep_counts_one_tick(ticks: u32, has_session: bool, r: Phase)
    requires
        call_ensures(Phase::advance, (Phase::Sleep { ticks }, Event::Slept, has_session), r),
    ensures
        r == (Phase::Sleep { ticks }).next(Event::Slept, has_session),
        ticks < 1200 ==> (r matches Phase::FindWindow { ticks: now } && now == ticks + 1),
        ticks >= 1200 ==> r == (Phase::CaptureCookies { origin: Origin::Timeout }),
{
}

/// A window that is there is read at the same tick; one that is gone ends the
/// flow.
pub proof fn law_window_is_read_where_it_is_found(
    ticks: u32,
    present: bool,
    has_session: bool,
    r: Phase,
)
    requires
        call_ensures(
            Phase::advance,
            (Phase::FindWindow { ticks }, Event::Window { present }, has_session),
            r,
        ),
    ensures
        r == (Phase::FindWindow { ticks }).next(Event::Window { present }, has_session),
        present ==> r == (Phase::ReadUrl { ticks }),
        !present ==> r is Done,
{
}

/// Every page on `www.pixiv.net` or `accounts.pixiv.net` whose path does not
/// begin with `/login` leads to a capture at that tick, and every other page to
/// the next sleep.
pub proof fn law_page_past_login_is_captured(
    ticks: u32,
    page: PageUrl,
    has_session: bool,
    r: Phase,
)
    requires
        call_ensures(
            Phase::advance,
            (Phase::ReadUrl { ticks }, Event::Url(Some(page)), has_session),
            r,
        ),
    ensures
        r == (Phase::ReadUrl { ticks }).next(Event::Url(Some(page)), has_session),
        ({
            let on_pixiv = page.host matches Some(host) && (host@ == "www.pixiv.net"@ || host@
                == "accounts.pixiv.net"@);
            if on_pixiv && !"/login"@.is_prefix_of(page.path@) {
                r == (Phase::CaptureCookies { origin: Origin::Poll { ticks } })
            } else {
                r == (Phase::Sleep { ticks })
            }
        }),
{
    reveal_strlit("www.pixiv.net");
    reveal_strlit("accounts.pixiv.net");
    let hosts = crate::adapter::pixiv_view().post_login_hosts;
    assert(hosts[0] == "www.pixiv.net"@);
    assert(hosts[1] == "accounts.pixiv.net"@);
    assert(hosts.contains(hosts[0]) && hosts.contains(hosts[1]));
    crate::adapter::lemma_host_lengths();
}

/// A page that the Pixiv adapter takes for past login leads to a capture, and
/// one that it does not to the next sleep.
pub proof fn law_capture_follows_the_adapter(ticks: u32, page: PageUrl, has_session: bool)
    ensures
        crate::adapter::pixiv_view().accepts(page@) ==> (Phase::ReadUrl { ticks }).next(
            Event::Url(Some(page)),
            has_session,
        ) == (Phase::CaptureCookies { origin: Origin::Poll { ticks } }),
        !crate::adapter::pixiv_view().accepts(page@) ==> (Phase::ReadUrl { ticks }).next(
            Event::Url(Some(page)),
            has_session,
        ) == (Phase::Sleep { ticks }),
{
}

/// An address that cannot be read leads to the next sleep.
pub proof fn law_unreadable_address_is_tried_again(ticks: u32, has_session: bool, r: Phase)
    requires
        call_ensures(Phase::advance, (Phase::ReadUrl { ticks }, Event::Url(None), has_session), r),
    ensures
        r == (Phase::Sleep { ticks }),
{
}

/// A cookie string with a session goes on to the question for the user id, as it
/// was captured; without a session, or without a cookie string, a poll sleeps
/// again, the timeout closes the window, and a destroyed window ends the flow.
pub proof fn law_session_cookie_goes_on(
    origin: Origin,
    captured: Option<String>,
    has_session: bool,
    r: Phase,
)
    requires
        call_ensures(
            Phase::advance,
            (Phase::CaptureCookies { origin }, Event::Captured(captured), has_session),
            r,
        ),
    ensures
        r == (Phase::CaptureCookies { origin }).next(Event::Captured(captured), has_session),
        if captured is Some && has_session {
            r == (Phase::FetchUserId { origin, cookie: captured->0 })
        } else {
            match origin {
                Origin::Poll { ticks } => r == (Phase::Sleep { ticks }),
                Origin::Timeout => r is CloseWindow,
                Origin::Destroyed => r is Done,
            }
        },
{
}

/// A user id that is not empty goes on to the question for the name, with the
/// cookie string as it was; an empty one or an error is no login.
pub proof fn law_user_id_goes_on(
    origin: Origin,
    cookie: String,
    reply: Result<String, String>,
    has_session: bool,
    r: Phase,
)
    requires
        call_ensures(
            Phase::advance,
            (Phase::FetchUserId { origin, cookie }, Event::UserId(reply), has_session),
            r,
        ),
    ensures
        r == (Phase::FetchUserId { origin, cookie }).next(Event::UserId(reply), has_session),
        if reply is Ok && reply->Ok_0@.len() > 0 {
            r == (Phase::FetchUserName { origin, cookie, user_id: reply->Ok_0 })
        } else {
            match origin {
                Origin::Poll { ticks } => r == (Phase::Sleep { ticks }),
                Origin::Timeout => r is CloseWindow,
                Origin::Destroyed => r is Done,
            }
        },
{
}

/// Whatever the reply to the question for the name, the login is kept: with the
/// cookie string and the user id as they were, and with the name iff one was
/// found.
pub proof fn law_name_never_stops_a_login(
    origin: Origin,
    cookie: String,
    user_id: String,
    reply: NameReply,
    has_session: bool,
    r: Phase,
)
    requires
        call_ensures(
            Phase::advance,
            (Phase::FetchUserName { origin, cookie, user_id }, Event::UserName(reply), has_session),
            r,
        ),
    ensures
        r == (Phase::FetchUserName { origin, cookie, user_id }).next(
            Event::UserName(reply),
            has_session,
        ),
        r is Persist,
        r->Persist_origin == origin,
        r->Persist_login.cookie == cookie,
        r->Persist_login.user_id == user_id,
        reply matches NameReply::Found(name) ==> r->Persist_login.user_name == Some(name),
        reply !is Found ==> r->Persist_login.user_name is None,
{
}

/// Every login that was kept is announced, the same login, whatever led to it.
pub proof fn law_kept_login_is_announced(
    origin: Origin,
    login: PixivLoginResult,
    has_session: bool,
    r: Phase,
)
    requires
        call_ensures(
            Phase::advance,
            (Phase::Persist { origin, login }, Event::Persisted, has_session),
            r,
        ),
    ensures
        r == (Phase::Persist { origin, login }).next(Event::Persisted, has_session),
        r == (Phase::Announce { origin, login }),
{
}

/// An announced login closes the window, unless the window was destroyed.
pub proof fn law_announced_login_closes_the_window(
    origin: Origin,
    login: PixivLoginResult,
    has_session: bool,
    r: Phase,
)
    requires
        call_ensures(
            Phase::advance,
            (Phase::Announce { origin, login }, Event::Announced, has_session),
            r,
        ),
    ensures
        r == (Phase::Announce { origin, login }).next(Event::Announced, has_session),
        origin is Destroyed ==> r is Done,
        origin !is Destroyed ==> r is CloseWindow,
{
}

/// A closed window ends the flow.
pub proof fn law_closed_window_ends_the_flow(has_session: bool, r: Phase)
    requires
        call_ensures(Phase::advance, (Phase::CloseWindow, Event::Closed, has_session), r),
    ensures
        r is Done,
{
}

/// Each phase has one kind of answer, and any other event leaves it as it is.
pub proof fn law_each_phase_has_its_answer(phase: Phase, event: Event, has_session: bool, r: Phase)
    requires
        call_ensures(Phase::advance, (phase, event, has_session), r),
    ensures
        ({
            let answered = {
                ||| phase is Sleep && event is Slept
                ||| phase is FindWindow && event is Window
                ||| phase is ReadUrl && event is Url
                ||| phase is CaptureCookies && event is Captured
                ||| phase is FetchUserId && event is UserId
                ||| phase is FetchUserName && event is UserName
                ||| phase is Persist && event is Persisted
                ||| phase is Announce && event is Announced
                ||| phase is CloseWindow && event is Closed
            };
            &&& phase.is_answered_by(event) == answered
            &&& !answered ==> r == phase
            &&& answered ==> r != phase
        }),
{
}

/// The given test decides about a captured cookie string, and about nothing
/// else: a step goes on with the string only on a `true` of the test on that
/// text, and gives up only on a `false`; on any other event a step is what an
/// advance with either verdict is.
pub proof fn law_step_asks_the_test<P: Fn(&str) -> bool>(
    phase: Phase,
    event: Event,
    has_pixiv_session: P,
    r: Phase,
)
    requires
        call_ensures(Phase::step::<P>, (phase, event, has_pixiv_session), r),
    ensures
        phase is CaptureCookies && (event matches Event::Captured(Some(_))) ==> {
            let captured = event->Captured_0->0;
            &&& exists|verdict: bool| #[trigger]
                phase.next(event, verdict) == r && exists|cookie: &str|
                    cookie@ == captured@ && #[trigger] call_ensures(
                        has_pixiv_session,
                        (cookie,),
                        verdict,
                    )
            &&& r is FetchUserId ==> exists|cookie: &str|
                cookie@ == captured@ && #[trigger] call_ensures(
                    has_pixiv_session,
                    (cookie,),
                    true,
                )
            &&& r !is FetchUserId ==> exists|cookie: &str|
                cookie@ == captured@ && #[trigger] call_ensures(
                    has_pixiv_session,
                    (cookie,),
                    false,
                )
        },
        !(phase is CaptureCookies && (event matches Event::Captured(Some(_)))) ==> r == phase.next(
            event,
            true,
        ) && r == phase.next(event, false),
{
    let verdict = choose|verdict: bool| #[trigger]
        phase.is_verdict_on(event, has_pixiv_session, verdict) && r == phase.next(event, verdict);
    assert(phase.next(event, verdict) == r);
}

/// Where `answers` and one answer more lead.
proof fn lemma_run_push(start: Phase, answers: Seq<Answer>, answer: Answer)
    ensures
        run(start, answers.push(answer)) == run(start, answers).next(answer.0, answer.1),
{
    assert(answers.push(answer).drop_last() =~= answers);
}

/// A login goes through at every tick: a window that shows any page of
/// `www.pixiv.net` or `accounts.pixiv.net` past `/login`, a cookie string with a
/// session and a user id come to a login with that string and that id, which is
/// kept, then announced; then the window is closed and the flow ends.
pub proof fn law_login_goes_through(
    ticks: u32,
    page: PageUrl,
    cookie: String,
    user_id: String,
    reply: NameReply,
    any: bool,
)
    requires
        ticks < 1200,
        page.host matches Some(host) && (host@ == "www.pixiv.net"@ || host@
            == "accounts.pixiv.net"@),
        !"/login"@.is_prefix_of(page.path@),
        user_id@.len() > 0,
    ensures
        ({
            let answers = seq![
                (Event::Slept, any),
                (Event::Window { present: true }, any),
                (Event::Url(Some(page)), any),
                (Event::Captured(Some(cookie)), true),
                (Event::UserId(Ok(user_id)), any),
                (Event::UserName(reply), any),
            ];
            let start = Phase::Sleep { ticks };
            let kept = run(start, answers);
            let told = run(start, answers.push((Event::Persisted, any)));
            let closing = run(
                start,
                answers.push((Event::Persisted, any)).push((Event::Announced, any)),
            );
            let end = run(
                start,
                answers.push((Event::Persisted, any)).push((Event::Announced, any)).push(
                    (Event::Closed, any),
                ),
            );
            &&& kept is Persist
            &&& kept->Persist_login.cookie == cookie
            &&& kept->Persist_login.user_id == user_id
            &&& told is Announce
            &&& told->Announce_login == kept->Persist_login
            &&& closing is CloseWindow
            &&& end is Done
        }),
{
    let start = Phase::Sleep { ticks };
    let none = Seq::<Answer>::empty();
    let a1 = none.push((Event::Slept, any));
    let a2 = a1.push((Event::Window { present: true }, any));
    let a3 = a2.push((Event::Url(Some(page)), any));
    let a4 = a3.push((Event::Captured(Some(cookie)), true));
    let a5 = a4.push((Event::UserId(Ok(user_id)), any));
    let a6 = a5.push((Event::UserName(reply), any));
    let a7 = a6.push((Event::Persisted, any));
    let a8 = a7.push((Event::Announced, any));
    lemma_run_push(start, none, (Event::Slept, any));
    lemma_run_push(start, a1, (Event::Window { present: true }, any));
    lemma_run_push(start, a2, (Event::Url(Some(page)), any));
    lemma_run_push(start, a3, (Event::Captured(Some(cookie)), true));
    lemma_run_push(start, a4, (Event::UserId(Ok(user_id)), any));
    lemma_run_push(start, a5, (Event::UserName(reply), any));
    lemma_run_push(start, a6, (Event::Persisted, any));
    lemma_run_push(start, a7, (Event::Announced, any));
    lemma_run_push(start, a8, (Event::Closed, any));
    let hosts = crate::adapter::pixiv_view().post_login_hosts;
    assert(hosts[0] == "www.pixiv.net"@);
    assert(hosts[1] == "accounts.pixiv.net"@);
    assert(a6 =~= seq![
        (Event::Slept, any),
        (Event::Window { present: true }, any),
        (Event::Url(Some(page)), any),
        (Event::Captured(Some(cookie)), true),
        (Event::UserId(Ok(user_id)), any),
        (Event::UserName(reply), any),
    ]);
}

/// `count` ticks, at each of which the window is there and its address cannot be
/// read.
pub open spec fn idle_ticks(count: nat) -> Seq<Answer>
    decreases count,
{
    if count == 0 {
        Seq::<Answer>::empty()
    } else {
        idle_ticks((count - 1) as nat).push((Event::Slept, false)).push(
            (Event::Window { present: true }, false),
        ).push((Event::Url(None), false))
    }
}

/// A poll that sees nothing keeps polling for the whole ten minutes, and the next
/// sleep brings the last capture: it neither gives up early nor goes on for ever.
pub proof fn law_idle_poll_runs_to_the_timeout(count: nat)
    requires
        count <= 1200,
    ensures
        run(Phase::Sleep { ticks: 0 }, idle_ticks(count)) == (Phase::Sleep { ticks: count as u32 }),
        count == 1200 ==> run(
            Phase::Sleep { ticks: 0 },
            idle_ticks(count).push((Event::Slept, false)),
        ) == (Phase::CaptureCookies { origin: Origin::Timeout }),
    decreases count,
{
    let start = Phase::Sleep { ticks: 0 };
    if count > 0 {
        let before = idle_ticks((count - 1) as nat);
        law_idle_poll_runs_to_the_timeout((count - 1) as nat);
        let slept = before.push((Event::Slept, false));
        let found = slept.push((Event::Window { present: true }, false));
        lemma_run_push(start, before, (Event::Slept, false));
        lemma_run_push(start, slept, (Event::Window { present: true }, false));
        lemma_run_push(start, found, (Event::Url(None), false));
    }
    lemma_run_push(start, idle_ticks(count), (Event::Slept, false));
}

} // verus!
