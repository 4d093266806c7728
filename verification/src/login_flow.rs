//! The Pixiv login flow as a state machine.
//!
//! A [`Phase`] is both a state and a request: it says what has to be done next
//! outside of this library (sleep, read the window's address, capture cookies,
//! ask the Pixiv API, ...). The outcome comes back as an [`Event`], and
//! [`Phase::step`] decides what follows.
//!
//! The flow waits until the window shows a page past login, captures the
//! cookies, resolves the user id and the display name, keeps the login, makes it
//! known, and closes the window. Whatever is not ready yet is tried again at the
//! next tick. After the last tick, and when the window is destroyed without a
//! login, one more capture is tried, whatever page the window shows.

use vstd::prelude::*;

use crate::adapter::{pixiv, pixiv_view};
use crate::page_url::PageUrl;
use crate::pixiv_login::{PixivLogin, PixivLoginResult, PixivSession};

verus! {

/// How long one [`Phase::Sleep`] lasts, in milliseconds.
pub const POLL_INTERVAL_MS: u64 = 500;

/// The number of ticks in which the window is looked at; the next one is the
/// timeout.
pub const MAX_TICKS: u32 = 1200;

/// What led to a capture of the cookies.
#[derive(Debug, Clone, Copy, PartialEq, Eq, Structural)]
pub enum Origin {
    /// The poll saw a page past login, at this tick.
    Poll { ticks: u32 },
    /// The poll ran out of ticks.
    Timeout,
    /// The window was destroyed.
    Destroyed,
}

/// Where the flow stands, and what it asks for.
#[derive(Debug)]
pub enum Phase {
    /// Sleep for [`POLL_INTERVAL_MS`]; `ticks` sleeps are over.
    Sleep { ticks: u32 },
    /// Look the login window up.
    FindWindow { ticks: u32 },
    /// Read the address that the window shows.
    ReadUrl { ticks: u32 },
    /// Capture all cookies.
    CaptureCookies { origin: Origin },
    /// Ask the API whose session the cookie is.
    FetchUserId { origin: Origin, cookie: String },
    /// Ask the API for the display name of the user.
    FetchUserName { origin: Origin, cookie: String, user_id: String },
    /// Keep the login in the session.
    Persist { origin: Origin, login: PixivLoginResult },
    /// Tell the frontend of the login.
    Announce { origin: Origin, login: PixivLoginResult },
    /// Close the login window.
    CloseWindow,
    /// Nothing is left to do.
    Done,
}

/// The answer of the API to the question for a display name.
#[derive(Debug)]
pub enum NameReply {
    /// No client could be made from the cookie.
    NoClient,
    /// The request failed.
    Failed,
    /// The name.
    Found(String),
}

/// What came of the request that a [`Phase`] makes.
#[derive(Debug)]
pub enum Event {
    /// The sleep is over.
    Slept,
    /// Whether the login window is still there.
    Window { present: bool },
    /// The address that the window shows, if it could be read.
    Url(Option<PageUrl>),
    /// The captured cookie string, if any.
    Captured(Option<String>),
    /// The user id, or the text of the error.
    UserId(Result<String, String>),
    /// The display name, or why there is none.
    UserName(NameReply),
    /// The login is kept.
    Persisted,
    /// The frontend was told.
    Announced,
    /// The window was told to close.
    Closed,
}

/// The display name in a reply; a failure is no obstacle, it only leaves the
/// login without a name.
pub open spec fn name_in(reply: NameReply) -> Option<String> {
    match reply {
        NameReply::Found(name) => Some(name),
        NameReply::NoClient => None,
        NameReply::Failed => None,
    }
}

/// The user id in a reply, if it is there and not empty.
pub open spec fn user_id_in(reply: Result<String, String>) -> Option<String> {
    match reply {
        Ok(id) => if id@.len() > 0 {
            Some(id)
        } else {
            None
        },
        Err(_) => None,
    }
}

/// The cookie string to go on with: a captured one that `has_session`.
pub open spec fn session_cookie_in(captured: Option<String>, has_session: bool) -> Option<String> {
    if has_session {
        captured
    } else {
        None
    }
}

impl Origin {
    /// Where a capture that led to no login leaves the flow: a poll goes on, the
    /// timeout still closes the window, and a destroyed window leaves nothing.
    pub open spec fn after_failure(self) -> Phase {
        match self {
            Origin::Poll { ticks } => Phase::Sleep { ticks },
            Origin::Timeout => Phase::CloseWindow,
            Origin::Destroyed => Phase::Done,
        }
    }

    /// Where an announced login leaves the flow: at closing the window, where
    /// there still is one.
    pub open spec fn after_success(self) -> Phase {
        match self {
            Origin::Poll { .. } => Phase::CloseWindow,
            Origin::Timeout => Phase::CloseWindow,
            Origin::Destroyed => Phase::Done,
        }
    }

    fn failed(self) -> (r: Phase)
        ensures
            r == self.after_failure(),
    {
        match self {
            Origin::Poll { ticks } => Phase::Sleep { ticks },
            Origin::Timeout => Phase::CloseWindow,
            Origin::Destroyed => Phase::Done,
        }
    }

    fn succeeded(self) -> (r: Phase)
        ensures
            r == self.after_success(),
    {
        match self {
            Origin::Poll { .. } => Phase::CloseWindow,
            Origin::Timeout => Phase::CloseWindow,
            Origin::Destroyed => Phase::Done,
        }
    }
}

impl Phase {
    /// `event` is an outcome of what this phase asks for.
    pub open spec fn is_answered_by(self, event: Event) -> bool {
        match self {
            Phase::Sleep { .. } => event is Slept,
            Phase::FindWindow { .. } => event is Window,
            Phase::ReadUrl { .. } => event is Url,
            Phase::CaptureCookies { .. } => event is Captured,
            Phase::FetchUserId { .. } => event is UserId,
            Phase::FetchUserName { .. } => event is UserName,
            Phase::Persist { .. } => event is Persisted,
            Phase::Announce { .. } => event is Announced,
            Phase::CloseWindow => event is Closed,
            Phase::Done => false,
        }
    }

    /// The phase after `event`, where `has_session` says whether a captured
    /// cookie string looks like a logged-in session. An event that answers
    /// something else than this phase asks for changes nothing.
    pub open spec fn next(self, event: Event, has_session: bool) -> Phase {
        match (self, event) {
            (Phase::Sleep { ticks }, Event::Slept) => if ticks < MAX_TICKS {
                Phase::FindWindow { ticks: (ticks + 1) as u32 }
            } else {
                Phase::CaptureCookies { origin: Origin::Timeout }
            },
            (Phase::FindWindow { ticks }, Event::Window { present }) => if present {
                Phase::ReadUrl { ticks }
            } else {
                Phase::Done
            },
            (Phase::ReadUrl { ticks }, Event::Url(shown)) => match shown {
                Some(page) => if pixiv_view().accepts(page@) {
                    Phase::CaptureCookies { origin: Origin::Poll { ticks } }
                } else {
                    Phase::Sleep { ticks }
                },
                None => Phase::Sleep { ticks },
            },
            (Phase::CaptureCookies { origin }, Event::Captured(captured)) => match session_cookie_in(
                captured,
                has_session,
            ) {
                Some(cookie) => Phase::FetchUserId { origin, cookie },
                None => origin.after_failure(),
            },
            (Phase::FetchUserId { origin, cookie }, Event::UserId(reply)) => match user_id_in(
                reply,
            ) {
                Some(user_id) => Phase::FetchUserName { origin, cookie, user_id },
                None => origin.after_failure(),
            },
            (Phase::FetchUserName { origin, cookie, user_id }, Event::UserName(reply)) => {
                Phase::Persist {
                    origin,
                    login: PixivLoginResult { user_id, user_name: name_in(reply), cookie },
                }
            },
            (Phase::Persist { origin, login }, Event::Persisted) => Phase::Announce {
                origin,
                login,
            },
            (Phase::Announce { origin, .. }, Event::Announced) => origin.after_success(),
            (Phase::CloseWindow, Event::Closed) => Phase::Done,
            (unanswered, _) => unanswered,
        }
    }

    /// Where the flow of a freshly opened window starts.
    pub open spec fn opening() -> Phase {
        Phase::Sleep { ticks: 0 }
    }

    /// Where the flow of a destroyed window starts: at one more capture, unless
    /// the session holds a login already.
    pub open spec fn closing(session: Option<PixivLogin>) -> Phase {
        match session {
            Some(_) => Phase::Done,
            None => Phase::CaptureCookies { origin: Origin::Destroyed },
        }
    }

    /// Starts the flow of a freshly opened window.
    pub fn on_opened() -> (r: Phase)
        ensures
            r == Phase::opening(),
    {
        Phase::Sleep { ticks: 0 }
    }

    /// Starts the flow of a window that was destroyed.
    pub fn on_destroyed(session: &PixivSession) -> (r: Phase)
        ensures
            r == Phase::closing(session@),
    {
        match session.get_login() {
            Some(_) => Phase::Done,
            None => Phase::CaptureCookies { origin: Origin::Destroyed },
        }
    }

    /// The phase after `event`, where `has_session` says whether a captured
    /// cookie string looks like a logged-in session.
    pub fn advance(self, event: Event, has_session: bool) -> (r: Phase)
        ensures
            r == self.next(event, has_session),
    {
        match (self, event) {
            (Phase::Sleep { ticks }, Event::Slept) => {
                if ticks < MAX_TICKS {
                    Phase::FindWindow { ticks: ticks + 1 }
                } else {
                    Phase::CaptureCookies { origin: Origin::Timeout }
                }
            },
            (Phase::FindWindow { ticks }, Event::Window { present }) => {
                if present {
                    Phase::ReadUrl { ticks }
                } else {
                    Phase::Done
                }
            },
            (Phase::ReadUrl { ticks }, Event::Url(shown)) => {
                let past_login = match &shown {
                    Some(page) => pixiv().is_post_login(page),
                    None => false,
                };
                if past_login {
                    Phase::CaptureCookies { origin: Origin::Poll { ticks } }
                } else {
                    Phase::Sleep { ticks }
                }
            },
            (Phase::CaptureCookies { origin }, Event::Captured(captured)) => match captured {
                Some(cookie) => {
                    if has_session {
                        Phase::FetchUserId { origin, cookie }
                    } else {
                        origin.failed()
                    }
                },
                None => origin.failed(),
            },
            (Phase::FetchUserId { origin, cookie }, Event::UserId(reply)) => match reply {
                Ok(user_id) => {
                    if user_id.as_str().is_empty() {
                        origin.failed()
                    } else {
                        Phase::FetchUserName { origin, cookie, user_id }
                    }
                },
                Err(_) => origin.failed(),
            },
            (Phase::FetchUserName { origin, cookie, user_id }, Event::UserName(reply)) => {
                let user_name = match reply {
                    NameReply::Found(name) => Some(name),
                    NameReply::NoClient => None,
                    NameReply::Failed => None,
                };
                Phase::Persist { origin, login: PixivLoginResult { user_id, user_name, cookie } }
            },
            (Phase::Persist { origin, login }, Event::Persisted) => Phase::Announce {
                origin,
                login,
            },
            (Phase::Announce { origin, .. }, Event::Announced) => origin.succeeded(),
            (Phase::CloseWindow, Event::Closed) => Phase::Done,
            (unanswered, _) => unanswered,
        }
    }

    /// `has_session` is what the test may say of the cookie string that `event`
    /// brings; where it brings none that this phase asks for, anything goes.
    pub open spec fn is_verdict_on<P: Fn(&str) -> bool>(
        self,
        event: Event,
        has_pixiv_session: P,
        has_session: bool,
    ) -> bool {
        match (self, event) {
            (Phase::CaptureCookies { .. }, Event::Captured(Some(captured))) => exists|cookie: &str|
                cookie@ == captured@ && #[trigger] call_ensures(
                    has_pixiv_session,
                    (cookie,),
                    has_session,
                ),
            _ => true,
        }
    }

    /// The phase after `event`; a captured cookie string is put to
    /// `has_pixiv_session`.
    pub fn step<P: Fn(&str) -> bool>(self, event: Event, has_pixiv_session: P) -> (r: Phase)
        requires
            forall|cookie: &str| call_requires(has_pixiv_session, (cookie,)),
        ensures
            exists|has_session: bool| #[trigger]
                self.is_verdict_on(event, has_pixiv_session, has_session) && r == self.next(
                    event,
                    has_session,
                ),
    {
        let has_session = match (&self, &event) {
            (Phase::CaptureCookies { .. }, Event::Captured(Some(cookie))) => {
                has_pixiv_session(cookie.as_str())
            },
            _ => false,
        };
        assert(self.is_verdict_on(event, has_pixiv_session, has_session));
        self.advance(event, has_session)
    }
}

} // verus!
