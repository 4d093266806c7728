//! Cookie strings, and what the session tests of the services say of them.

use vstd::prelude::*;

use crate::adapter::Service;

verus! {

/// A cookie string with the verdict of each service's session test on it.
#[derive(Debug, Clone, Copy)]
pub struct JudgedCookie<'a> {
    text: &'a str,
    pixiv: bool,
    ehentai: bool,
}

/// What a [`JudgedCookie`] holds.
pub struct JudgedView {
    pub text: Seq<char>,
    pub pixiv: bool,
    pub ehentai: bool,
}

impl JudgedView {
    /// The cookie string looks like a logged-in session of `service`.
    pub open spec fn is_session_of(self, service: Service) -> bool {
        match service {
            Service::Pixiv => self.pixiv,
            Service::Ehentai => self.ehentai,
        }
    }
}

impl<'a> View for JudgedCookie<'a> {
    type V = JudgedView;

    closed spec fn view(&self) -> JudgedView {
        JudgedView { text: self.text@, pixiv: self.pixiv, ehentai: self.ehentai }
    }
}

impl<'a> JudgedCookie<'a> {
    /// Puts `cookie` to the session test of each service.
    pub fn judge<P: Fn(&str) -> bool, E: Fn(&str) -> bool>(
        cookie: &'a str,
        has_pixiv_session: P,
        has_ehentai_session: E,
    ) -> (r: JudgedCookie<'a>)
        requires
            call_requires(has_pixiv_session, (cookie,)),
            call_requires(has_ehentai_session, (cookie,)),
        ensures
            r@.text == cookie@,
            call_ensures(has_pixiv_session, (cookie,), r@.pixiv),
            call_ensures(has_ehentai_session, (cookie,), r@.ehentai),
    {
        JudgedCookie {
            text: cookie,
            pixiv: has_pixiv_session(cookie),
            ehentai: has_ehentai_session(cookie),
        }
    }

    /// The cookie string itself.
    pub fn text(&self) -> (r: &'a str)
        ensures
            r@ == self@.text,
    {
        self.text
    }

    /// Whether the test of `service` found a logged-in session.
    pub fn is_session_of(&self, service: Service) -> (r: bool)
        ensures
            r == self@.is_session_of(service),
    {
        match service {
            Service::Pixiv => self.pixiv,
            Service::Ehentai => self.ehentai,
        }
    }
}

} // verus!
