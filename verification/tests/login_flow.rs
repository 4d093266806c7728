use erolib::login_flow::{Event, NameReply, Origin, Phase, MAX_TICKS, POLL_INTERVAL_MS};
use erolib::page_url::PageUrl;
use erolib::pixiv_login::{persist, PixivLoginResult, PixivSession};

fn logged_in(cookie: &str) -> bool {
    cookie.contains("PHPSESSID=")
}

fn shown(address: &str) -> Event {
    Event::Url(Some(PageUrl::parse(address).unwrap()))
}

fn captured(cookie: &str) -> Event {
    Event::Captured(Some(cookie.to_string()))
}

fn user_id(id: &str) -> Event {
    Event::UserId(Ok(id.to_string()))
}

fn run(start: Phase, events: Vec<Event>) -> Phase {
    let mut phase = start;
    for event in events {
        phase = phase.step(event, logged_in);
    }
    phase
}

fn first_capture() -> Phase {
    run(
        Phase::on_opened(),
        vec![
            Event::Slept,
            Event::Window { present: true },
            shown("https://www.pixiv.net/"),
        ],
    )
}

#[test]
fn a_login_goes_through_to_the_closed_window() {
    let phase = first_capture();
    assert!(matches!(
        phase,
        Phase::CaptureCookies { origin: Origin::Poll { ticks: 1 } }
    ));
    let phase = phase.step(captured("PHPSESSID=1"), logged_in);
    match &phase {
        Phase::FetchUserId { origin, cookie } => {
            assert_eq!(*origin, Origin::Poll { ticks: 1 });
            assert_eq!(cookie, "PHPSESSID=1");
        }
        other => panic!("unexpected {other:?}"),
    }
    let phase = phase.step(user_id("42"), logged_in);
    match &phase {
        Phase::FetchUserName { cookie, user_id, .. } => {
            assert_eq!(cookie, "PHPSESSID=1");
            assert_eq!(user_id, "42");
        }
        other => panic!("unexpected {other:?}"),
    }
    let phase = phase.step(
        Event::UserName(NameReply::Found("someone".to_string())),
        logged_in,
    );
    let mut session = PixivSession::new();
    match &phase {
        Phase::Persist { login, .. } => {
            assert_eq!(login.user_id, "42");
            assert_eq!(login.user_name.as_deref(), Some("someone"));
            assert_eq!(login.cookie, "PHPSESSID=1");
            persist(&mut session, login);
        }
        other => panic!("unexpected {other:?}"),
    }
    let phase = phase.step(Event::Persisted, logged_in);
    match &phase {
        Phase::Announce { login, .. } => assert_eq!(login.user_id, "42"),
        other => panic!("unexpected {other:?}"),
    }
    let phase = phase.step(Event::Announced, logged_in);
    assert!(matches!(phase, Phase::CloseWindow));
    assert!(matches!(Phase::on_destroyed(&session), Phase::Done));
    assert!(matches!(phase.step(Event::Closed, logged_in), Phase::Done));
}

#[test]
fn a_missing_name_is_no_obstacle() {
    for reply in [NameReply::NoClient, NameReply::Failed] {
        let phase = run(
            first_capture(),
            vec![captured("PHPSESSID=1"), user_id("42"), Event::UserName(reply)],
        );
        match phase {
            Phase::Persist { login, .. } => assert_eq!(login.user_name, None),
            other => panic!("unexpected {other:?}"),
        }
    }
}

#[test]
fn what_is_not_ready_is_tried_again() {
    let reading = || run(Phase::on_opened(), vec![Event::Slept, Event::Window { present: true }]);
    for event in [
        Event::Url(None),
        shown("https://accounts.pixiv.net/login"),
        shown("https://example.com/"),
    ] {
        assert!(matches!(reading().step(event, logged_in), Phase::Sleep { ticks: 1 }));
    }
    for event in [Event::Captured(None), captured("a=b"), captured("")] {
        assert!(matches!(first_capture().step(event, logged_in), Phase::Sleep { ticks: 1 }));
    }
    for event in [user_id(""), Event::UserId(Err("offline".to_string()))] {
        let asking = first_capture().step(captured("PHPSESSID=1"), logged_in);
        assert!(matches!(asking.step(event, logged_in), Phase::Sleep { ticks: 1 }));
    }
}

#[test]
fn a_window_that_is_gone_ends_the_poll() {
    let phase = run(Phase::on_opened(), vec![Event::Slept, Event::Window { present: false }]);
    assert!(matches!(phase, Phase::Done));
}

#[test]
fn the_poll_times_out_after_ten_minutes() {
    let mut phase = Phase::on_opened();
    let mut slept: u64 = 0;
    loop {
        phase = match phase {
            Phase::Sleep { .. } => {
                slept += POLL_INTERVAL_MS;
                phase.step(Event::Slept, logged_in)
            }
            Phase::FindWindow { .. } => phase.step(Event::Window { present: true }, logged_in),
            Phase::ReadUrl { .. } => phase.step(Event::Url(None), logged_in),
            other => {
                phase = other;
                break;
            }
        };
    }
    assert!(matches!(phase, Phase::CaptureCookies { origin: Origin::Timeout }));
    assert_eq!(slept, 600_500);
    assert_eq!(MAX_TICKS, 1200);
}

#[test]
fn the_last_tick_still_looks_at_the_window() {
    let last = Phase::Sleep { ticks: 1199 }.step(Event::Slept, logged_in);
    assert!(matches!(last, Phase::FindWindow { ticks: 1200 }));
    let late = Phase::Sleep { ticks: 1200 }.step(Event::Slept, logged_in);
    assert!(matches!(late, Phase::CaptureCookies { origin: Origin::Timeout }));
    let absurd = Phase::Sleep { ticks: u32::MAX }.step(Event::Slept, logged_in);
    assert!(matches!(absurd, Phase::CaptureCookies { origin: Origin::Timeout }));
}

#[test]
fn the_timeout_closes_the_window_with_or_without_a_login() {
    let at_timeout = || Phase::CaptureCookies { origin: Origin::Timeout };
    let without = at_timeout().step(Event::Captured(None), logged_in);
    assert!(matches!(without, Phase::CloseWindow));
    let anonymous = run(at_timeout(), vec![captured("PHPSESSID=1"), user_id("")]);
    assert!(matches!(anonymous, Phase::CloseWindow));
    let with = run(
        at_timeout(),
        vec![
            captured("PHPSESSID=1"),
            user_id("42"),
            Event::UserName(NameReply::Failed),
            Event::Persisted,
            Event::Announced,
        ],
    );
    assert!(matches!(with, Phase::CloseWindow));
}

#[test]
fn a_destroyed_window_is_given_one_more_capture() {
    let session = PixivSession::new();
    let start = || Phase::on_destroyed(&session);
    assert!(matches!(start(), Phase::CaptureCookies { origin: Origin::Destroyed }));
    assert!(matches!(start().step(captured("a=b"), logged_in), Phase::Done));
    let told = run(
        start(),
        vec![
            captured("PHPSESSID=1"),
            user_id("42"),
            Event::UserName(NameReply::Failed),
            Event::Persisted,
        ],
    );
    assert!(matches!(told, Phase::Announce { origin: Origin::Destroyed, .. }));
    assert!(matches!(told.step(Event::Announced, logged_in), Phase::Done));
}

#[test]
fn an_unasked_answer_changes_nothing() {
    let phase = first_capture().step(Event::Closed, logged_in);
    assert!(matches!(
        phase,
        Phase::CaptureCookies { origin: Origin::Poll { ticks: 1 } }
    ));
    assert!(matches!(Phase::Done.step(Event::Slept, logged_in), Phase::Done));
}

#[test]
fn the_given_verdict_decides_about_the_cookie() {
    assert!(matches!(
        first_capture().advance(captured("a=b"), true),
        Phase::FetchUserId { .. }
    ));
    assert!(matches!(
        first_capture().advance(captured("PHPSESSID=1"), false),
        Phase::Sleep { ticks: 1 }
    ));
}

#[test]
fn persisting_replaces_the_login() {
    let mut session = PixivSession::new();
    assert!(session.get_login().is_none());
    for id in ["1", "2"] {
        let login = PixivLoginResult {
            user_id: id.to_string(),
            user_name: Some(format!("name {id}")),
            cookie: format!("PHPSESSID={id}"),
        };
        persist(&mut session, &login);
        let kept = session.get_login().unwrap();
        assert_eq!(kept.user_id, id);
        assert_eq!(kept.user_name, login.user_name);
        assert_eq!(kept.cookie, login.cookie);
    }
}

#[test]
fn a_login_is_kept_and_announced_once() {
    let mut phase = first_capture();
    let mut kept = 0;
    let mut told = 0;
    for event in [
        captured("a=b"),
        Event::Slept,
        Event::Window { present: true },
        shown("https://accounts.pixiv.net/"),
        captured("PHPSESSID=1"),
        user_id("42"),
        Event::UserName(NameReply::Failed),
        Event::Persisted,
        Event::Announced,
        Event::Closed,
        Event::Persisted,
        Event::Announced,
    ] {
        phase = phase.step(event, logged_in);
        kept += matches!(phase, Phase::Persist { .. }) as u32;
        told += matches!(phase, Phase::Announce { .. }) as u32;
    }
    assert_eq!((kept, told), (1, 1));
    assert!(matches!(phase, Phase::Done));
}

#[test]
fn only_a_session_cookie_goes_to_the_api() {
    for cookie in ["a=b", "", "phpsessid=1"] {
        for origin in [Origin::Poll { ticks: 3 }, Origin::Timeout, Origin::Destroyed] {
            let phase = Phase::CaptureCookies { origin }.step(captured(cookie), logged_in);
            assert!(!matches!(phase, Phase::FetchUserId { .. }));
        }
    }
    let asking = run(first_capture(), vec![captured("PHPSESSID=1"), user_id("42")]);
    match asking {
        Phase::FetchUserName { cookie, user_id, .. } => {
            assert_eq!(cookie, "PHPSESSID=1");
            assert_eq!(user_id, "42");
        }
        other => panic!("unexpected {other:?}"),
    }
}
