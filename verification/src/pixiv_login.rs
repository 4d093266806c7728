//! A Pixiv login: the page it starts on, what it yields, and where that is kept.

use vstd::prelude::*;

use crate::adapter::{pixiv, pixiv_view};
use crate::page_url::{parsed_address, PageUrl, PageView};

verus! {

/// Result of a successful in-app Pixiv login.
#[derive(Debug, Clone)]
pub struct PixivLoginResult {
    pub user_id: String,
    pub user_name: Option<String>,
    pub cookie: String,
}

/// A login as the session keeps it.
#[derive(Debug, Clone)]
pub struct PixivLogin {
    pub cookie: String,
    pub user_id: String,
    pub user_name: Option<String>,
}

/// The Pixiv session: logged in, or not.
#[derive(Debug)]
pub struct PixivSession {
    login: Option<PixivLogin>,
}

impl View for PixivSession {
    type V = Option<PixivLogin>;

    closed spec fn view(&self) -> Option<PixivLogin> {
        self.login
    }
}

impl PixivSession {
    /// A session without a login.
    pub fn new() -> (r: PixivSession)
        ensures
            r@ is None,
    {
        PixivSession { login: None }
    }

    /// The login, if there is one.
    pub fn get_login(&self) -> (r: Option<&PixivLogin>)
        ensures
            match r {
                Some(login) => self@ == Some(*login),
                None => self@ is None,
            },
    {
        self.login.as_ref()
    }

    /// Keeps `login`, in place of any earlier one.
    pub fn set_login(&mut self, login: PixivLogin)
        ensures
            final(self)@ == Some(login),
    {
        self.login = Some(login);
    }
}

impl PixivLoginResult {
    /// The login that the session keeps of this result.
    pub open spec fn as_login(self) -> PixivLogin {
        PixivLogin { cookie: self.cookie, user_id: self.user_id, user_name: self.user_name }
    }
}

/// Keeps the result of a login in the session.
pub fn persist(session: &mut PixivSession, login: &PixivLoginResult)
    ensures
        final(session)@ == Some(login.as_login()),
        final(session)@ matches Some(kept) && kept.cookie == login.cookie && kept.user_id
            == login.user_id && kept.user_name == login.user_name,
{
    let user_name = match &login.user_name {
        Some(name) => Some(name.clone()),
        None => None,
    };
    session.set_login(
        PixivLogin { cookie: login.cookie.clone(), user_id: login.user_id.clone(), user_name },
    );
}

/// The page to open, or the message that says why there is none, from what
/// parsing the login address gave.
pub open spec fn login_page_outcome(parsed: Result<PageView, Seq<char>>) -> Result<
    PageView,
    Seq<char>,
> {
    match parsed {
        Ok(page) => Ok(page),
        Err(message) => Err("bad pixiv login url: "@ + message),
    }
}

/// What a page or a message reads.
pub open spec fn page_or_message(r: Result<PageUrl, String>) -> Result<PageView, Seq<char>> {
    match r {
        Ok(page) => Ok(page@),
        Err(message) => Err(message@),
    }
}

/// Passes a parsed login address on; says of a parse error what it is about.
pub fn login_page(parsed: Result<PageUrl, String>) -> (r: Result<PageUrl, String>)
    ensures
        page_or_message(r) == login_page_outcome(page_or_message(parsed)),
        parsed is Ok ==> r == parsed,
{
    match parsed {
        Ok(page) => Ok(page),
        Err(message) => Err("bad pixiv login url: ".to_owned().concat(message.as_str())),
    }
}

/// The page on which the Pixiv login window opens.
pub fn pixiv_login_page() -> (r: Result<PageUrl, String>)
    ensures
        page_or_message(r) == login_page_outcome(parsed_address(pixiv_view().login_url)),
{
    login_page(PageUrl::parse(pixiv().login_url))
}

} // verus!
