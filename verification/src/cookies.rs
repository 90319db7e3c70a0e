//! Cookies: what the browser sent, what a response changes, and the session cookie.

use vstd::prelude::*;

use crate::text::{owned, same_text};
use crate::token::SESSION_LIFETIME;

verus! {

/// When a browser sends a cookie along with a request from another site.
#[derive(Debug, Clone, Copy, PartialEq, Eq, Structural)]
pub enum SameSite {
    Strict,
    Lax,
    /// Sent with every request; written `None` in the header.
    Unrestricted,
}

/// A cookie with the attributes that this crate sets.
#[derive(Debug, Clone, PartialEq, Eq)]
pub struct Cookie {
    pub name: String,
    pub value: String,
    pub path: String,
    pub secure: bool,
    pub http_only: bool,
    /// `None` leaves the attribute out.
    pub same_site: Option<SameSite>,
    /// The lifetime in seconds; `None` makes a cookie of the browser session.
    pub max_age: Option<i64>,
}

/// A cookie as plain values.
pub struct CookieView {
    pub name: Seq<char>,
    pub value: Seq<char>,
    pub path: Seq<char>,
    pub secure: bool,
    pub http_only: bool,
    pub same_site: Option<SameSite>,
    pub max_age: Option<i64>,
}

impl View for Cookie {
    type V = CookieView;

    open spec fn view(&self) -> CookieView {
        CookieView {
            name: self.name@,
            value: self.value@,
            path: self.path@,
            secure: self.secure,
            http_only: self.http_only,
            same_site: self.same_site,
            max_age: self.max_age,
        }
    }
}

/// What a response tells the browser to do with one cookie.
#[derive(Debug, Clone, PartialEq, Eq)]
pub enum CookieChange {
    /// Store the cookie, in place of any of the same name.
    Store(Cookie),
    /// Forget the cookie of this name; the attributes are those it was stored with.
    Remove(Cookie),
}

/// A change as plain values.
pub enum CookieChangeView {
    Store(CookieView),
    Remove(CookieView),
}

impl View for CookieChange {
    type V = CookieChangeView;

    open spec fn view(&self) -> CookieChangeView {
        match self {
            CookieChange::Store(cookie) => CookieChangeView::Store(cookie@),
            CookieChange::Remove(cookie) => CookieChangeView::Remove(cookie@),
        }
    }
}

impl CookieChangeView {
    /// The name of the cookie that the change is about.
    pub open spec fn name(self) -> Seq<char> {
        match self {
            CookieChangeView::Store(cookie) => cookie.name,
            CookieChangeView::Remove(cookie) => cookie.name,
        }
    }
}

/// The cookies of one request and its response: those that the browser sent, and the
/// changes that the response makes, in the order in which they were made.
#[derive(Debug, PartialEq, Eq)]
pub struct CookieJar {
    received: Vec<Cookie>,
    changes: Vec<CookieChange>,
}

/// A jar as plain values.
pub struct CookieJarView {
    pub received: Seq<CookieView>,
    pub changes: Seq<CookieChangeView>,
}

/// The first of the cookies with the given name.
pub open spec fn first_named(cookies: Seq<CookieView>, name: Seq<char>) -> Option<CookieView>
    decreases cookies.len(),
{
    if cookies.len() == 0 {
        None
    } else if cookies[0].name == name {
        Some(cookies[0])
    } else {
        first_named(cookies.drop_first(), name)
    }
}

/// What the last of the changes to the named cookie leaves, or what the browser sent
/// where no change is about it.
pub open spec fn held_after(
    received: Seq<CookieView>,
    changes: Seq<CookieChangeView>,
    name: Seq<char>,
) -> Option<CookieView>
    decreases changes.len(),
{
    if changes.len() == 0 {
        first_named(received, name)
    } else if changes.last().name() == name {
        match changes.last() {
            CookieChangeView::Store(cookie) => Some(cookie),
            CookieChangeView::Remove(_) => None,
        }
    } else {
        held_after(received, changes.drop_last(), name)
    }
}

impl CookieJarView {
    /// The cookie of the given name that the browser holds once it has the response.
    pub open spec fn held(self, name: Seq<char>) -> Option<CookieView> {
        held_after(self.received, self.changes, name)
    }

    /// The jar after one more change.
    pub open spec fn with(self, change: CookieChangeView) -> CookieJarView {
        CookieJarView { received: self.received, changes: self.changes.push(change) }
    }
}

impl View for CookieJar {
    type V = CookieJarView;

    closed spec fn view(&self) -> CookieJarView {
        CookieJarView {
            received: self.received@.map_values(|cookie: Cookie| cookie@),
            changes: self.changes@.map_values(|change: CookieChange| change@),
        }
    }
}

/// The cookie as a browser sends it: a name and a value.
pub open spec fn received_cookie(name: Seq<char>, value: Seq<char>) -> CookieView {
    CookieView {
        name,
        value,
        path: Seq::empty(),
        secure: false,
        http_only: false,
        same_site: None,
        max_age: None,
    }
}

impl CookieJar {
    /// A jar for a request that brought no cookie.
    pub fn new() -> (jar: CookieJar)
        ensures
            jar@.received.len() == 0,
            jar@.changes.len() == 0,
    {
        CookieJar { received: Vec::new(), changes: Vec::new() }
    }

    /// Notes a cookie that the browser sent with the request.
    pub fn receive(&mut self, name: &str, value: &str)
        ensures
            final(self)@.received == old(self)@.received.push(received_cookie(name@, value@)),
            final(self)@.changes == old(self)@.changes,
    {
        let cookie = Cookie {
            name: owned(name),
            value: owned(value),
            path: String::new(),
            secure: false,
            http_only: false,
            same_site: None,
            max_age: None,
        };
        proof {
            assert(old(self).received@.push(cookie).map_values(|cookie: Cookie| cookie@)
                =~= old(self).received@.map_values(|cookie: Cookie| cookie@).push(cookie@));
        }
        self.received.push(cookie);
    }

    /// Has the response store a cookie.
    pub fn add(&mut self, cookie: Cookie)
        ensures
            final(self)@ == old(self)@.with(CookieChangeView::Store(cookie@)),
            final(self)@.held(cookie@.name) == Some(cookie@),
            forall|name: Seq<char>|
                name != cookie@.name ==> #[trigger] final(self)@.held(name) == old(self)@.held(
                    name,
                ),
    {
        let change = CookieChange::Store(cookie);
        proof {
            lemma_with(old(self)@, change@);
            assert(old(self).changes@.push(change).map_values(|change: CookieChange| change@)
                =~= old(self).changes@.map_values(|change: CookieChange| change@).push(change@));
        }
        self.changes.push(change);
    }

    /// Has the response remove a cookie. The cookie names it and repeats the attributes
    /// it was stored with.
    pub fn remove(&mut self, cookie: Cookie)
        ensures
            final(self)@ == old(self)@.with(CookieChangeView::Remove(cookie@)),
            final(self)@.held(cookie@.name) is None,
            forall|name: Seq<char>|
                name != cookie@.name ==> #[trigger] final(self)@.held(name) == old(self)@.held(
                    name,
                ),
    {
        let change = CookieChange::Remove(cookie);
        proof {
            lemma_with(old(self)@, change@);
            assert(old(self).changes@.push(change).map_values(|change: CookieChange| change@)
                =~= old(self).changes@.map_values(|change: CookieChange| change@).push(change@));
        }
        self.changes.push(change);
    }

    /// The cookie of the given name that the browser holds once it has the response.
    pub fn get(&self, name: &str) -> (found: Option<&Cookie>)
        ensures
            match found {
                Some(cookie) => self@.held(name@) == Some(cookie@),
                None => self@.held(name@) is None,
            },
    {
        let ghost received = self@.received;
        let ghost changes = self@.changes;
        let mut i: usize = self.changes.len();
        assert(changes.subrange(0, i as int) =~= changes);
        while i > 0
            invariant
                i <= self.changes.len(),
                received == self@.received,
                changes == self@.changes,
                changes.len() == self.changes.len(),
                held_after(received, changes, name@) == held_after(
                    received,
                    changes.subrange(0, i as int),
                    name@,
                ),
            decreases i,
        {
            i = i - 1;
            let ghost prefix = changes.subrange(0, i + 1);
            assert(prefix.last() == self.changes@[i as int]@);
            assert(prefix.drop_last() =~= changes.subrange(0, i as int));
            match &self.changes[i] {
                CookieChange::Store(cookie) => {
                    if same_text(cookie.name.as_str(), name) {
                        return Some(cookie);
                    }
                },
                CookieChange::Remove(cookie) => {
                    if same_text(cookie.name.as_str(), name) {
                        return None;
                    }
                },
            }
        }
        assert(changes.subrange(0, 0).len() == 0);
        assert(received.subrange(0, received.len() as int) =~= received);
        let mut j: usize = 0;
        while j < self.received.len()
            invariant
                j <= self.received.len(),
                received == self@.received,
                changes == self@.changes,
                received.len() == self.received.len(),
                held_after(received, changes, name@) == first_named(
                    received.subrange(j as int, received.len() as int),
                    name@,
                ),
            decreases self.received.len() - j,
        {
            let ghost rest = received.subrange(j as int, received.len() as int);
            assert(rest[0] == self.received@[j as int]@);
            assert(rest.drop_first() =~= received.subrange(j + 1, received.len() as int));
            if same_text(self.received[j].name.as_str(), name) {
                assert(first_named(rest, name@) == Some(rest[0]));
                return Some(&self.received[j]);
            }
            j = j + 1;
        }
        None
    }

    /// The changes that the response makes, in order.
    pub fn changes(&self) -> (changes: &Vec<CookieChange>)
        ensures
            changes@.map_values(|change: CookieChange| change@) == self@.changes,
    {
        &self.changes
    }
}

/// What one more change does to what the browser holds.
pub proof fn lemma_with(jar: CookieJarView, change: CookieChangeView)
    ensures
        jar.with(change).held(change.name()) == match change {
            CookieChangeView::Store(cookie) => Some(cookie),
            CookieChangeView::Remove(_) => None::<CookieView>,
        },
        forall|name: Seq<char>|
            name != change.name() ==> #[trigger] jar.with(change).held(name) == jar.held(name),
{
    assert(jar.changes.push(change).last() == change);
    assert(jar.changes.push(change).drop_last() =~= jar.changes);
}

pub open spec fn session_cookie_name() -> Seq<char> {
    "x_auth_token"@
}

/// The session cookie for a token: sent over HTTPS only, hidden from scripts, sent with
/// top-level navigation from other sites, and kept as long as the token is valid.
pub open spec fn session_cookie_of(token: Seq<char>) -> CookieView {
    CookieView {
        name: session_cookie_name(),
        value: token,
        path: "/"@,
        secure: true,
        http_only: true,
        same_site: Some(SameSite::Lax),
        max_age: Some(SESSION_LIFETIME),
    }
}

/// The cookie that removes the session cookie: its name, path and security attributes,
/// and no value.
pub open spec fn session_removal() -> CookieView {
    CookieView {
        name: session_cookie_name(),
        value: Seq::empty(),
        path: "/"@,
        secure: true,
        http_only: true,
        same_site: Some(SameSite::Lax),
        max_age: None,
    }
}

pub open spec fn consent_cookie_name() -> Seq<char> {
    "privacy_policy"@
}

/// The cookie that marks the privacy policy as accepted.
pub open spec fn consent_marker() -> CookieView {
    CookieView {
        name: consent_cookie_name(),
        value: "accepted"@,
        path: "/"@,
        secure: true,
        http_only: false,
        same_site: None,
        max_age: None,
    }
}

pub open spec fn state_cookie_name() -> Seq<char> {
    "oauth_state"@
}

/// The cookie that keeps the anti-forgery nonce while the browser is at the provider.
pub open spec fn state_cookie_of(nonce: Seq<char>) -> CookieView {
    CookieView {
        name: state_cookie_name(),
        value: nonce,
        path: "/"@,
        secure: true,
        http_only: true,
        same_site: Some(SameSite::Lax),
        max_age: None,
    }
}

/// The cookie that removes the nonce: its name, path and security attributes, and no
/// value.
pub open spec fn state_removal() -> CookieView {
    state_cookie_of(Seq::empty())
}

/// Builds the session cookie for a token.
pub fn session_cookie(token: &str) -> (cookie: Cookie)
    ensures
        cookie@ == session_cookie_of(token@),
{
    Cookie {
        name: owned("x_auth_token"),
        value: owned(token),
        path: owned("/"),
        secure: true,
        http_only: true,
        same_site: Some(SameSite::Lax),
        max_age: Some(SESSION_LIFETIME),
    }
}

/// Builds the cookie that marks the privacy policy as accepted.
pub fn consent_cookie() -> (cookie: Cookie)
    ensures
        cookie@ == consent_marker(),
{
    Cookie {
        name: owned("privacy_policy"),
        value: owned("accepted"),
        path: owned("/"),
        secure: true,
        http_only: false,
        same_site: None,
        max_age: None,
    }
}

/// Builds the cookie that keeps the anti-forgery nonce; with an empty nonce, the cookie
/// that removes it.
pub fn state_cookie(nonce: &str) -> (cookie: Cookie)
    ensures
        cookie@ == state_cookie_of(nonce@),
{
    Cookie {
        name: owned("oauth_state"),
        value: owned(nonce),
        path: owned("/"),
        secure: true,
        http_only: true,
        same_site: Some(SameSite::Lax),
        max_age: None,
    }
}

/// Stores the session token in the browser.
pub fn set_session(cookies: &mut CookieJar, token: &str)
    ensures
        final(cookies)@ == old(cookies)@.with(CookieChangeView::Store(session_cookie_of(token@))),
        final(cookies)@.held(session_cookie_name()) == Some(session_cookie_of(token@)),
{
    cookies.add(session_cookie(token));
}

/// Removes the session token from the browser, naming the cookie with the attributes it
/// was stored with.
pub fn clear_session(cookies: &mut CookieJar)
    ensures
        final(cookies)@ == old(cookies)@.with(CookieChangeView::Remove(session_removal())),
        final(cookies)@.held(session_cookie_name()) is None,
{
    let removal = Cookie {
        name: owned("x_auth_token"),
        value: String::new(),
        path: owned("/"),
        secure: true,
        http_only: true,
        same_site: Some(SameSite::Lax),
        max_age: None,
    };
    cookies.remove(removal);
}

/// The session token that the browser holds once it has the response.
pub fn session_token(cookies: &CookieJar) -> (token: Option<String>)
    ensures
        token.deep_view() == match cookies@.held(session_cookie_name()) {
            Some(cookie) => Some(cookie.value),
            None => None,
        },
{
    match cookies.get("x_auth_token") {
        Some(cookie) => Some(cookie.value.clone()),
        None => None,
    }
}

/// Once the session is cleared the browser holds no session token, whatever it held
/// and whatever session was set before.
pub proof fn lemma_cleared_session_is_gone(jar: CookieJarView, token: Seq<char>)
    ensures
        jar.with(CookieChangeView::Store(session_cookie_of(token))).held(session_cookie_name())
            == Some(session_cookie_of(token)),
        jar.with(CookieChangeView::Store(session_cookie_of(token))).with(
            CookieChangeView::Remove(session_removal()),
        ).held(session_cookie_name()) is None,
{
    lemma_with(jar, CookieChangeView::Store(session_cookie_of(token)));
    lemma_with(
        jar.with(CookieChangeView::Store(session_cookie_of(token))),
        CookieChangeView::Remove(session_removal()),
    );
}

} // verus!
