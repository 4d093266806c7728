//! What holds of every run of the login flow.

use vstd::prelude::*;

use crate::adapter::pixiv_view;
use crate::login_flow::{
    name_in, session_cookie_in, user_id_in, Event, NameReply, Origin, Phase, MAX_TICKS,
    POLL_INTERVAL_MS,
};
use crate::page_url::PageUrl;
use crate::pixiv_login::{PixivLogin, PixivLoginResult};

verus! {

/// An event, and whether the cookie string in it (if any) looks like a
/// logged-in session.
pub type Answer = (Event, bool);

/// Where the answers lead from `start`.
pub open spec fn run(start: Phase, answers: Seq<Answer>) -> Phase
    decreases answers.len(),
{
    if answers.len() == 0 {
        start
    } else {
        run(start, answers.drop_last()).next(answers.last().0, answers.last().1)
    }
}

/// Each answer answers what the flow asked for at that point.
pub open spec fn is_conversation(start: Phase, answers: Seq<Answer>) -> bool
    decreases answers.len(),
{
    answers.len() == 0 || (is_conversation(start, answers.drop_last()) && run(
        start,
        answers.drop_last(),
    ).is_answered_by(answers.last().0))
}

/// A flow starts when the window is opened, or when it is destroyed.
pub open spec fn is_start(start: Phase) -> bool {
    start == Phase::opening() || exists|session: Option<PixivLogin>|
        start == #[trigger] Phase::closing(session)
}

/// How many ticks are left after `ticks`.
pub open spec fn ticks_left(ticks: u32) -> nat {
    if ticks < MAX_TICKS {
        (MAX_TICKS - ticks) as nat
    } else {
        0
    }
}

/// A bound on the number of answers that can follow a capture that led to no
/// login, beyond the one that closes the window.
pub open spec fn answers_after_tick(origin: Origin) -> nat {
    match origin {
        Origin::Poll { ticks } => 10 + 10 * ticks_left(ticks),
        Origin::Timeout => 0,
        Origin::Destroyed => 0,
    }
}

/// A bound on the number of answers that can still follow.
pub open spec fn answers_left(phase: Phase) -> nat {
    match phase {
        Phase::Sleep { ticks } => 10 + 10 * ticks_left(ticks),
        Phase::FindWindow { ticks } => 18 + 10 * ticks_left(ticks),
        Phase::ReadUrl { ticks } => 17 + 10 * ticks_left(ticks),
        Phase::CaptureCookies { origin } => 6 + answers_after_tick(origin),
        Phase::FetchUserId { origin, .. } => 5 + answers_after_tick(origin),
        Phase::FetchUserName { origin, .. } => 4 + answers_after_tick(origin),
        Phase::Persist { origin, .. } => 3 + answers_after_tick(origin),
        Phase::Announce { origin, .. } => 2 + answers_after_tick(origin),
        Phase::CloseWindow => 1,
        Phase::Done => 0,
    }
}

/// Every answer brings the flow closer to its end.
pub proof fn law_every_answer_makes_progress(phase: Phase, event: Event, has_session: bool)
    requires
        phase.is_answered_by(event),
    ensures
        answers_left(phase.next(event, has_session)) < answers_left(phase),
{
}

/// The flow ends: no conversation is longer than the bound at its start, and
/// wherever it stops short of [`Phase::Done`], some answer is still awaited.
pub proof fn law_flow_ends(start: Phase, answers: Seq<Answer>)
    requires
        is_conversation(start, answers),
    ensures
        answers.len() + answers_left(run(start, answers)) <= answers_left(start),
        run(start, answers) is Done || exists|event: Event| #[trigger]
            run(start, answers).is_answered_by(event),
    decreases answers.len(),
{
    if answers.len() > 0 {
        let before = answers.drop_last();
        law_flow_ends(start, before);
        law_every_answer_makes_progress(
            run(start, before),
            answers.last().0,
            answers.last().1,
        );
    }
    let phase = run(start, answers);
    assert(phase.is_answered_by(Event::Slept) || phase.is_answered_by(
        Event::Window { present: true },
    ) || phase.is_answered_by(Event::Url(None)) || phase.is_answered_by(Event::Captured(None))
        || phase.is_answered_by(Event::UserName(NameReply::Failed)) || phase.is_answered_by(
        Event::Persisted,
    ) || phase.is_answered_by(Event::Announced) || phase.is_answered_by(Event::Closed)
        || phase is FetchUserId || phase is Done);
    if phase is FetchUserId {
        let text: String = arbitrary();
        assert(phase.is_answered_by(Event::UserId(Ok(text))));
    }
}

/// After [`Phase::Done`] nothing happens any more.
pub proof fn law_done_is_final(event: Event, has_session: bool)
    ensures
        Phase::Done.next(event, has_session) is Done,
{
}

/// An answer to something that was not asked changes nothing.
pub proof fn law_unasked_answer_changes_nothing(phase: Phase, event: Event, has_session: bool)
    requires
        !phase.is_answered_by(event),
    ensures
        phase.next(event, has_session) == phase,
{
}

/// How many sleeps are among the answers.
pub open spec fn sleeps(answers: Seq<Answer>) -> nat
    decreases answers.len(),
{
    if answers.len() == 0 {
        0
    } else if answers.last().0 is Slept {
        sleeps(answers.drop_last()) + 1
    } else {
        sleeps(answers.drop_last())
    }
}

/// The tick at which a polling flow stands.
pub open spec fn tick_of(phase: Phase) -> Option<u32> {
    match phase {
        Phase::Sleep { ticks } => Some(ticks),
        Phase::FindWindow { ticks } => Some(ticks),
        Phase::ReadUrl { ticks } => Some(ticks),
        Phase::CaptureCookies { origin } => tick_in(origin),
        Phase::FetchUserId { origin, .. } => tick_in(origin),
        Phase::FetchUserName { origin, .. } => tick_in(origin),
        Phase::Persist { origin, .. } => tick_in(origin),
        Phase::Announce { origin, .. } => tick_in(origin),
        Phase::CloseWindow => None,
        Phase::Done => None,
    }
}

/// The tick at which a poll led to a capture.
pub open spec fn tick_in(origin: Origin) -> Option<u32> {
    match origin {
        Origin::Poll { ticks } => Some(ticks),
        Origin::Timeout => None,
        Origin::Destroyed => None,
    }
}

/// The poll times out after ten minutes: a tick is counted for each sleep and
/// for nothing else, the capture at the timeout comes right after the sleep that
/// follows the last tick, and no further sleep comes after that one.
pub proof fn law_poll_times_out(answers: Seq<Answer>)
    requires
        is_conversation(Phase::opening(), answers),
    ensures
        tick_of(run(Phase::opening(), answers)) matches Some(ticks) ==> sleeps(answers) == ticks
            && ticks <= MAX_TICKS,
        run(Phase::opening(), answers) == (Phase::CaptureCookies { origin: Origin::Timeout })
            ==> sleeps(answers) == MAX_TICKS + 1,
        sleeps(answers) <= MAX_TICKS + 1,
        sleeps(answers) * POLL_INTERVAL_MS <= 600_500,
    decreases answers.len(),
{
    if answers.len() > 0 {
        let before = answers.drop_last();
        law_poll_times_out(before);
    }
    assert(sleeps(answers) * POLL_INTERVAL_MS <= 600_500) by (nonlinear_arith)
        requires
            sleeps(answers) <= 1201,
            POLL_INTERVAL_MS == 500,
    ;
}

/// Whatever is not ready at a tick is tried again at the next one, with nothing
/// kept of this one: an address that cannot be read, a page that is not past
/// login, no cookie string or one without a session, and no user id.
pub proof fn law_not_ready_is_tried_again(
    ticks: u32,
    page: PageUrl,
    cookie: String,
    message: String,
    no_id: String,
    has_session: bool,
)
    requires
        !pixiv_view().accepts(page@),
        no_id@.len() == 0,
    ensures
        ({
            let origin = Origin::Poll { ticks };
            let again = Phase::Sleep { ticks };
            &&& Phase::ReadUrl { ticks }.next(Event::Url(None), has_session) == again
            &&& Phase::ReadUrl { ticks }.next(Event::Url(Some(page)), has_session) == again
            &&& Phase::CaptureCookies { origin }.next(Event::Captured(None), has_session) == again
            &&& Phase::CaptureCookies { origin }.next(Event::Captured(Some(cookie)), false)
                == again
            &&& Phase::FetchUserId { origin, cookie }.next(
                Event::UserId(Err(message)),
                has_session,
            ) == again
            &&& Phase::FetchUserId { origin, cookie }.next(Event::UserId(Ok(no_id)), has_session)
                == again
        }),
{
}

/// The last answers carry what a login is made of: a captured cookie string that
/// looks like a session, then a user id that is not empty, then the reply with
/// the name. A poll saw a page past login right before.
pub open spec fn is_backed_by(
    login: PixivLoginResult,
    origin: Origin,
    answers: Seq<Answer>,
) -> bool {
    let n = answers.len();
    &&& n >= 3
    &&& answers[n - 3].0 == Event::Captured(Some(login.cookie))
    &&& answers[n - 3].1
    &&& answers[n - 2].0 == Event::UserId(Ok(login.user_id))
    &&& login.user_id@.len() > 0
    &&& answers[n - 1].0 matches Event::UserName(reply)
    &&& login.user_name == name_in(reply)
    &&& origin is Poll ==> n >= 4 && (answers[n - 4].0 matches Event::Url(Some(page))
        && pixiv_view().accepts(page@))
}

/// A conversation that is not empty ends in a step of its beginning.
proof fn lemma_last_step(start: Phase, answers: Seq<Answer>) -> (before: Phase)
    requires
        is_conversation(start, answers),
        answers.len() > 0,
    ensures
        is_conversation(start, answers.drop_last()),
        before == run(start, answers.drop_last()),
        before.is_answered_by(answers.last().0),
        run(start, answers) == before.next(answers.last().0, answers.last().1),
{
    run(start, answers.drop_last())
}

/// No login out of thin air: a login is kept only after its cookie string was
/// captured and found to be a session, its user id came from the API and is not
/// empty, and, where the poll led to it, the window showed a page past login.
pub proof fn law_kept_login_is_backed(
    start: Phase,
    answers: Seq<Answer>,
    origin: Origin,
    login: PixivLoginResult,
)
    requires
        is_start(start),
        is_conversation(start, answers),
        run(start, answers) == (Phase::Persist { origin, login }),
    ensures
        is_backed_by(login, origin, answers),
{
    let named = answers;
    let asked_name = lemma_last_step(start, named);
    let identified = named.drop_last();
    let asked_id = lemma_last_step(start, identified);
    let captured = identified.drop_last();
    let asked_cookies = lemma_last_step(start, captured);
    if origin is Poll {
        let seen = captured.drop_last();
        let asked_url = lemma_last_step(start, seen);
        assert(asked_url is ReadUrl);
    }
}

/// First kept, then told: a login is announced only right after that same login
/// was kept.
pub proof fn law_announced_login_is_kept(
    start: Phase,
    answers: Seq<Answer>,
    origin: Origin,
    login: PixivLoginResult,
)
    requires
        is_start(start),
        is_conversation(start, answers),
        run(start, answers) == (Phase::Announce { origin, login }),
    ensures
        answers.len() > 0,
        answers.last().0 is Persisted,
        run(start, answers.drop_last()) == (Phase::Persist { origin, login }),
        is_backed_by(login, origin, answers.drop_last()),
{
    let before = lemma_last_step(start, answers);
    law_kept_login_is_backed(start, answers.drop_last(), origin, login);
}

/// A flow that a destroyed window started makes no use of the window: it never
/// sleeps, looks the window up, reads its address or closes it.
pub proof fn law_destroyed_flow_needs_no_window(
    session: Option<PixivLogin>,
    answers: Seq<Answer>,
)
    ensures
        ({
            let phase = run(Phase::closing(session), answers);
            &&& phase !is Sleep
            &&& phase !is FindWindow
            &&& phase !is ReadUrl
            &&& phase !is CloseWindow
        }),
{
    lemma_destroyed_origin(session, answers);
}

/// Every capture of a flow that a destroyed window started says so.
proof fn lemma_destroyed_origin(session: Option<PixivLogin>, answers: Seq<Answer>)
    ensures
        match run(Phase::closing(session), answers) {
            Phase::CaptureCookies { origin } => origin is Destroyed,
            Phase::FetchUserId { origin, .. } => origin is Destroyed,
            Phase::FetchUserName { origin, .. } => origin is Destroyed,
            Phase::Persist { origin, .. } => origin is Destroyed,
            Phase::Announce { origin, .. } => origin is Destroyed,
            Phase::Done => true,
            _ => false,
        },
    decreases answers.len(),
{
    if answers.len() > 0 {
        lemma_destroyed_origin(session, answers.drop_last());
    }
}

/// Every capture of a flow that an opened window started is the poll's or the
/// timeout's.
proof fn lemma_opened_origin(answers: Seq<Answer>)
    ensures
        match run(Phase::opening(), answers) {
            Phase::CaptureCookies { origin } => origin !is Destroyed,
            Phase::FetchUserId { origin, .. } => origin !is Destroyed,
            Phase::FetchUserName { origin, .. } => origin !is Destroyed,
            Phase::Persist { origin, .. } => origin !is Destroyed,
            Phase::Announce { origin, .. } => origin !is Destroyed,
            _ => true,
        },
    decreases answers.len(),
{
    if answers.len() > 0 {
        lemma_opened_origin(answers.drop_last());
    }
}

/// The flow of an opened window leaves no window behind: it ends by closing the
/// window, or by finding it gone.
pub proof fn law_opened_flow_leaves_no_window(answers: Seq<Answer>)
    requires
        is_conversation(Phase::opening(), answers),
        run(Phase::opening(), answers) is Done,
    ensures
        answers.len() > 0,
        answers.last().0 is Closed || answers.last().0 == (Event::Window { present: false }),
{
    let before = lemma_last_step(Phase::opening(), answers);
    lemma_opened_origin(answers.drop_last());
}

/// What one capture comes to: a login where there is a cookie string with a
/// session and a user id that is not empty, and otherwise none. The name never
/// decides.
pub open spec fn capture_outcome(
    captured: Option<String>,
    has_session: bool,
    user_id: Result<String, String>,
    user_name: NameReply,
) -> Option<PixivLoginResult> {
    match (session_cookie_in(captured, has_session), user_id_in(user_id)) {
        (Some(cookie), Some(user_id)) => Some(
            PixivLoginResult { user_id, user_name: name_in(user_name), cookie },
        ),
        _ => None,
    }
}

/// A capture, whatever led to it, keeps the login that it comes to; where it
/// comes to none, the flow goes on as after a failure, and replies to questions
/// that were then not asked play no part.
pub proof fn law_capture_comes_to_its_outcome(
    origin: Origin,
    captured: Option<String>,
    has_session: bool,
    user_id: Result<String, String>,
    user_name: NameReply,
    any: bool,
)
    ensures
        ({
            let answers = seq![
                (Event::Captured(captured), has_session),
                (Event::UserId(user_id), any),
                (Event::UserName(user_name), any),
            ];
            let phase = run(Phase::CaptureCookies { origin }, answers);
            match capture_outcome(captured, has_session, user_id, user_name) {
                Some(login) => phase == (Phase::Persist { origin, login }),
                None => phase == origin.after_failure(),
            }
        }),
{
    let first = (Event::Captured(captured), has_session);
    let second = (Event::UserId(user_id), any);
    let third = (Event::UserName(user_name), any);
    let answers = seq![first, second, third];
    assert(answers.drop_last() =~= seq![first, second]);
    assert(seq![first, second].drop_last() =~= seq![first]);
    assert(seq![first].drop_last() =~= Seq::<Answer>::empty());
    reveal_with_fuel(run, 4);
}

/// A login that was kept makes the end of the window the end of the matter: the
/// flow of the destroyed window has nothing to do.
pub proof fn law_kept_login_needs_no_second_capture(
    login: PixivLoginResult,
    session: Option<PixivLogin>,
)
    requires
        session == Some(login.as_login()),
    ensures
        Phase::closing(session) is Done,
{
}

/// Where a conversation stands after its first `count` answers.
pub open spec fn phase_after(start: Phase, answers: Seq<Answer>, count: int) -> Phase {
    run(start, answers.take(count))
}

/// One answer more is one step more.
proof fn lemma_phase_step(start: Phase, answers: Seq<Answer>, count: int)
    requires
        is_conversation(start, answers),
        0 <= count < answers.len(),
    ensures
        phase_after(start, answers, count).is_answered_by(answers[count].0),
        phase_after(start, answers, count + 1) == phase_after(start, answers, count).next(
            answers[count].0,
            answers[count].1,
        ),
    decreases answers.len(),
{
    let longer = answers.take(count + 1);
    assert(longer.drop_last() =~= answers.take(count));
    if count + 1 == answers.len() {
        assert(longer =~= answers);
    } else {
        let before = answers.drop_last();
        lemma_phase_step(start, before, count);
        assert(before.take(count) =~= answers.take(count));
    }
}

/// Once a login is to be kept, the flow only announces it and ends.
proof fn lemma_after_persist(start: Phase, answers: Seq<Answer>, kept: int, later: int)
    requires
        is_conversation(start, answers),
        0 <= kept < later <= answers.len(),
        phase_after(start, answers, kept) is Persist,
    ensures
        ({
            let phase = phase_after(start, answers, later);
            phase is CloseWindow || phase is Done || (later == kept + 1 && phase is Announce)
        }),
    decreases later,
{
    lemma_phase_step(start, answers, later - 1);
    if later - 1 > kept {
        lemma_after_persist(start, answers, kept, later - 1);
    }
}

/// Once a login is announced, the flow only ends.
proof fn lemma_after_announce(start: Phase, answers: Seq<Answer>, told: int, later: int)
    requires
        is_conversation(start, answers),
        0 <= told < later <= answers.len(),
        phase_after(start, answers, told) is Announce,
    ensures
        ({
            let phase = phase_after(start, answers, later);
            phase is CloseWindow || phase is Done
        }),
    decreases later,
{
    lemma_phase_step(start, answers, later - 1);
    if later - 1 > told {
        lemma_after_announce(start, answers, told, later - 1);
    }
}

/// One login at most: in the course of a conversation the flow stands at keeping
/// a login at most once, and at announcing one at most once.
pub proof fn law_at_most_one_login(start: Phase, answers: Seq<Answer>, i: int, j: int)
    requires
        is_conversation(start, answers),
        0 <= i <= answers.len(),
        0 <= j <= answers.len(),
    ensures
        phase_after(start, answers, i) is Persist && phase_after(start, answers, j) is Persist
            ==> i == j,
        phase_after(start, answers, i) is Announce && phase_after(start, answers, j) is Announce
            ==> i == j,
{
    let (first, second) = if i < j {
        (i, j)
    } else {
        (j, i)
    };
    if first < second {
        if phase_after(start, answers, first) is Persist {
            lemma_after_persist(start, answers, first, second);
        }
        if phase_after(start, answers, first) is Announce {
            lemma_after_announce(start, answers, first, second);
        }
    }
}

/// The answer before `count` captured this cookie string and found it to be a
/// session; where the poll led to the capture, the one before showed a page past
/// login.
pub open spec fn is_captured_session(
    cookie: String,
    origin: Origin,
    answers: Seq<Answer>,
    count: int,
) -> bool {
    &&& 1 <= count <= answers.len()
    &&& answers[count - 1].0 == Event::Captured(Some(cookie))
    &&& answers[count - 1].1
    &&& origin is Poll ==> count >= 2 && (answers[count - 2].0 matches Event::Url(Some(page))
        && pixiv_view().accepts(page@))
}

/// No cookie string without a session goes to the API: where the flow asks for a
/// user id, the last answer captured that very string with a true verdict; where
/// it asks for a name, the one before did, and the last one brought the user id,
/// which is not empty.
pub proof fn law_only_sessions_go_to_the_api(start: Phase, answers: Seq<Answer>)
    requires
        is_start(start),
        is_conversation(start, answers),
    ensures
        match run(start, answers) {
            Phase::FetchUserId { origin, cookie } => is_captured_session(
                cookie,
                origin,
                answers,
                answers.len() as int,
            ),
            Phase::FetchUserName { origin, cookie, user_id } => {
                &&& is_captured_session(cookie, origin, answers, answers.len() - 1)
                &&& answers.last().0 == Event::UserId(Ok(user_id))
                &&& user_id@.len() > 0
            },
            _ => true,
        },
    decreases answers.len(),
{
    match run(start, answers) {
        Phase::FetchUserId { origin, .. } => {
            let asked_cookies = lemma_last_step(start, answers);
            assert(asked_cookies == (Phase::CaptureCookies { origin }));
            if origin is Poll {
                let asked_url = lemma_last_step(start, answers.drop_last());
                assert(asked_url is ReadUrl);
            }
        },
        Phase::FetchUserName { .. } => {
            let asked_id = lemma_last_step(start, answers);
            law_only_sessions_go_to_the_api(start, answers.drop_last());
            assert(asked_id is FetchUserId);
        },
        _ => {},
    }
}

} // verus!
