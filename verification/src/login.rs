//! The handlers of the login pages.
//!
//! A login runs from the consent form over the provider and back: the browser awaits
//! consent, is sent to the provider, comes back with a code that is traded at the
//! provider, and ends with a session or with an error report. Either end allows a new
//! start.

use vstd::prelude::*;

use crate::config::{Config, ConfigView};
use crate::cookies::{
    clear_session, consent_cookie, consent_cookie_name, consent_marker, lemma_with,
    session_cookie_name, session_cookie_of, session_removal, set_session, state_cookie,
    state_cookie_name, state_cookie_of, state_removal, CookieChangeView, CookieJar,
    CookieJarView,
};
use crate::encoding::percent_encode;
use crate::exchange::{
    authorization_url, has_part, lemma_authorization_url_parts, outcome_view, start_oauth_uri,
    token_request, token_request_of, AuthServerError, AuthServerErrorView, TokenRequest,
};
use crate::response::{no_context, push_entry, Response, ResponseView, Template};
use crate::text::{decimal, decimal_text, owned, same_text};
use crate::token::{
    issue_token, issued, unix_now, valid_session_token, validate_jwt, validated, TokenError,
    SESSION_LIFETIME,
};

verus! {

/// The consent form as it was submitted.
#[derive(Debug, PartialEq, Eq)]
pub struct LoginForm {
    /// The value of the privacy-policy checkbox, if it was sent.
    pub privacy_policy: Option<String>,
}

impl LoginForm {
    /// Whether the form carries the acknowledgment: the literal `accepted`.
    pub open spec fn accepted(self) -> bool {
        self.privacy_policy.deep_view() == Some("accepted"@)
    }

    /// Whether the form carries the acknowledgment.
    pub fn is_accepted(&self) -> (accepted: bool)
        ensures
            accepted == self.accepted(),
    {
        match &self.privacy_policy {
            Some(value) => same_text(value.as_str(), "accepted"),
            None => false,
        }
    }
}

/// A character of a nonce: a lower-case hexadecimal digit or a hyphen.
pub open spec fn is_nonce_char(c: char) -> bool {
    ||| '0' <= c <= '9'
    ||| 'a' <= c <= 'f'
    ||| c == '-'
}

/// The shape of a fresh nonce: 36 characters of lower-case hexadecimal digits and
/// hyphens.
pub open spec fn is_nonce(nonce: Seq<char>) -> bool {
    &&& nonce.len() == 36
    &&& forall|i: int| 0 <= i < nonce.len() ==> is_nonce_char(#[trigger] nonce[i])
}

/// Calls `uuid::Uuid::new_v4` and writes the random UUID as `Display` does: 32
/// lower-case hexadecimal digits in five groups with a hyphen between them.
#[verifier::external_body]
fn fresh_nonce() -> (nonce: String)
    ensures
        is_nonce(nonce@),
{
    uuid::Uuid::new_v4().to_string()
}

/// The entry page with nothing to report.
pub open spec fn entry_page() -> ResponseView {
    ResponseView::Render { template: Template::Login, context: Seq::empty() }
}

/// The entry page with the mark that the acknowledgment is missing.
pub open spec fn consent_missing_page() -> ResponseView {
    ResponseView::Render {
        template: Template::Login,
        context: seq![("checkbox_class"@, "invalid-feedback"@)],
    }
}

/// The error page for a failed exchange: the provider's status and body as they came,
/// or the description of the transport failure. Nothing else finds its way into it.
pub open spec fn error_page(error: AuthServerErrorView) -> ResponseView {
    match error {
        AuthServerErrorView::HttpStateError { state, body } => ResponseView::Render {
            template: Template::AuthError,
            context: seq![("code"@, decimal(state as nat)), ("body"@, body)],
        },
        AuthServerErrorView::ReqwestError { detail } => ResponseView::Render {
            template: Template::AuthError,
            context: seq![("code"@, Seq::<char>::empty()), ("body"@, detail)],
        },
    }
}

/// The error page for a callback that does not belong to a login started here.
pub open spec fn state_mismatch_page() -> ResponseView {
    ResponseView::Render {
        template: Template::AuthError,
        context: seq![("code"@, Seq::<char>::empty()), ("body"@, "state mismatch"@)],
    }
}

/// The confirmation page that shows the session token.
pub open spec fn logged_in_page(token: Seq<char>) -> ResponseView {
    ResponseView::Render { template: Template::LoggedIn, context: seq![("jwt"@, token)] }
}

/// The redirect to the start page.
pub open spec fn home() -> ResponseView {
    ResponseView::Proceed { target: "/"@ }
}

/// Every page of the login can be rendered: none has a key twice in its context.
pub proof fn lemma_pages_well_formed(error: AuthServerErrorView, token: Seq<char>)
    ensures
        entry_page().well_formed(),
        consent_missing_page().well_formed(),
        error_page(error).well_formed(),
        state_mismatch_page().well_formed(),
        logged_in_page(token).well_formed(),
        home().well_formed(),
{
    reveal_strlit("code");
    reveal_strlit("body");
    assert("code"@[0] != "body"@[0]);
}

/// Renders the entry page with the consent form.
pub fn get_index() -> (response: Response)
    ensures
        response@ == entry_page(),
        response@.well_formed(),
{
    proof {
        lemma_pages_well_formed(
            AuthServerErrorView::ReqwestError { detail: Seq::empty() },
            Seq::empty(),
        );
    }
    Response::Render { template: Template::Login, context: no_context() }
}

/// Renders the report of a failed exchange.
pub fn error_view(error: AuthServerError) -> (response: Response)
    ensures
        response@ == error_page(error@),
        response@.well_formed(),
{
    proof {
        lemma_pages_well_formed(error@, Seq::empty());
    }
    let mut context = no_context();
    match error {
        AuthServerError::HttpStateError { state, body } => {
            push_entry(&mut context, "code", decimal_text(state));
            push_entry(&mut context, "body", body);
            assert(context.deep_view() =~= seq![("code"@, decimal(state as nat)), ("body"@, body@)]);
        },
        AuthServerError::ReqwestError { detail } => {
            push_entry(&mut context, "code", String::new());
            push_entry(&mut context, "body", detail);
            assert(context.deep_view() =~= seq![
                ("code"@, Seq::<char>::empty()),
                ("body"@, detail@),
            ]);
        },
    }
    Response::Render { template: Template::AuthError, context }
}

/// The consent gate for a given nonce. With the acknowledgment, the browser gets the
/// consent marker and the nonce and is sent to the provider. Without it, the entry
/// page comes back with the mark that it is missing, and no cookie changes.
pub fn consent_gate(form: &LoginForm, cookies: &mut CookieJar, config: &Config, nonce: &str) -> (response:
    Response)
    ensures
        form.accepted() ==> {
            &&& response@ == (ResponseView::Proceed { target: authorization_url(config@, nonce@) })
            &&& final(cookies)@ == old(cookies)@.with(CookieChangeView::Store(consent_marker())).with(
                CookieChangeView::Store(state_cookie_of(nonce@)),
            )
        },
        !form.accepted() ==> {
            &&& response@ == consent_missing_page()
            &&& final(cookies)@ == old(cookies)@
        },
        response@.well_formed(),
{
    proof {
        lemma_pages_well_formed(
            AuthServerErrorView::ReqwestError { detail: Seq::empty() },
            Seq::empty(),
        );
    }
    if form.is_accepted() {
        cookies.add(consent_cookie());
        cookies.add(state_cookie(nonce));
        Response::Proceed { target: start_oauth_uri(config, nonce) }
    } else {
        let mut context = no_context();
        push_entry(&mut context, "checkbox_class", owned("invalid-feedback"));
        assert(context.deep_view() =~= seq![("checkbox_class"@, "invalid-feedback"@)]);
        Response::Render { template: Template::Login, context }
    }
}

/// Handles the submitted consent form, with a fresh random nonce for the provider.
pub fn post_index(form: &LoginForm, cookies: &mut CookieJar, config: &Config) -> (response: Response)
    ensures
        form.accepted() ==> exists|nonce: Seq<char>|
            {
                &&& is_nonce(nonce)
                &&& response@ == (ResponseView::Proceed {
                    target: #[trigger] authorization_url(config@, nonce),
                })
                &&& final(cookies)@ == old(cookies)@.with(
                    CookieChangeView::Store(consent_marker()),
                ).with(CookieChangeView::Store(state_cookie_of(nonce)))
            },
        !form.accepted() ==> {
            &&& response@ == consent_missing_page()
            &&& final(cookies)@ == old(cookies)@
        },
        response@.well_formed(),
{
    let nonce = fresh_nonce();
    consent_gate(form, cookies, config, nonce.as_str())
}

/// Whether the callback names a nonce, and the browser holds that nonce.
pub open spec fn state_matches(jar: CookieJarView, state: Seq<char>) -> bool {
    &&& state.len() > 0
    &&& jar.held(state_cookie_name()) matches Some(cookie) && cookie.value == state
}

/// Takes the provider's callback. Where the callback names a nonce and the browser
/// holds it, the nonce is used up and the request that trades the code is described.
/// Otherwise the error page comes back, nothing is to be sent and no cookie changes.
pub fn begin_exchange(code: &str, state: &str, cookies: &mut CookieJar, config: &Config) -> (step: Result<
    TokenRequest,
    Response,
>)
    ensures
        state_matches(old(cookies)@, state@) ==> {
            &&& step matches Ok(request) && request@ == token_request_of(config@, code@)
            &&& final(cookies)@ == old(cookies)@.with(CookieChangeView::Remove(state_removal()))
        },
        !state_matches(old(cookies)@, state@) ==> {
            &&& step matches Err(response) && response@ == state_mismatch_page()
            &&& final(cookies)@ == old(cookies)@
        },
        step matches Err(response) ==> response@.well_formed(),
{
    proof {
        lemma_pages_well_formed(
            AuthServerErrorView::ReqwestError { detail: Seq::empty() },
            Seq::empty(),
        );
        reveal_strlit("");
        assert(""@ =~= Seq::<char>::empty());
        if state@.len() == 0 {
            assert(state@ =~= ""@);
        }
    }
    let matches = !same_text(state, "") && match cookies.get("oauth_state") {
        Some(cookie) => same_text(cookie.value.as_str(), state),
        None => false,
    };
    if matches {
        cookies.remove(state_cookie(""));
        Ok(token_request(config, code))
    } else {
        let mut context = no_context();
        push_entry(&mut context, "code", String::new());
        push_entry(&mut context, "body", owned("state mismatch"));
        assert(context.deep_view() =~= seq![
            ("code"@, Seq::<char>::empty()),
            ("body"@, "state mismatch"@),
        ]);
        Err(Response::Render { template: Template::AuthError, context })
    }
}

/// A handler's result as plain values.
pub open spec fn result_view(result: Result<Response, TokenError>) -> Result<
    ResponseView,
    TokenError,
> {
    match result {
        Ok(response) => Ok(response@),
        Err(e) => Err(e),
    }
}

/// What the end of a login answers and what it leaves in the jar. A failed exchange
/// gets its error page and changes no cookie. A confirmed one gets a session token for
/// the subject, in the session cookie and on the confirmation page; where no token can
/// be issued, the error is handed out and no cookie changes.
pub open spec fn login_completed(
    exchange: Result<Seq<char>, AuthServerErrorView>,
    jar: CookieJarView,
    secret: Seq<char>,
    subject: u32,
    now: i64,
) -> (Result<ResponseView, TokenError>, CookieJarView) {
    match exchange {
        Err(error) => (Ok(error_page(error)), jar),
        Ok(_) => match issued(secret, subject, now) {
            Err(e) => (Err(e), jar),
            Ok(token) => (
                Ok(logged_in_page(token)),
                jar.with(CookieChangeView::Store(session_cookie_of(token))),
            ),
        },
    }
}

/// Whether the browser holds a session cookie whose token validates under the key as
/// the session token of `subject` issued at `now`, at every instant before its expiry.
pub open spec fn holds_valid_session(
    jar: CookieJarView,
    secret: Seq<char>,
    subject: u32,
    now: i64,
) -> bool {
    jar.held(session_cookie_name()) matches Some(cookie) && valid_session_token(
        secret,
        cookie.value,
        subject,
        now,
    )
}

/// An accepted consent always ends in a redirect to the provider whose target names
/// the client, carries the redirect URI percent-encoded and asks for the scope
/// `openid`.
pub proof fn lemma_accepted_consent_redirects(response: ResponseView, config: ConfigView, nonce: Seq<char>)
    requires
        response == (ResponseView::Proceed { target: authorization_url(config, nonce) }),
    ensures
        response matches ResponseView::Proceed { target } && {
            &&& has_part(target, "client_id="@ + config.client_id)
            &&& has_part(target, "redirect_uri="@ + percent_encode(config.redirect_uri))
            &&& has_part(target, "scope=openid"@)
        },
{
    lemma_authorization_url_parts(config, nonce);
}

/// The consent gate never touches the session: whatever the form says, the browser
/// holds the session cookie afterwards that it held before.
pub proof fn lemma_consent_keeps_session(jar: CookieJarView, nonce: Seq<char>)
    ensures
        jar.with(CookieChangeView::Store(consent_marker())).with(
            CookieChangeView::Store(state_cookie_of(nonce)),
        ).held(session_cookie_name()) == jar.held(session_cookie_name()),
{
    reveal_strlit("x_auth_token");
    reveal_strlit("privacy_policy");
    reveal_strlit("oauth_state");
    assert(session_cookie_name().len() == 12);
    assert(consent_cookie_name().len() == 14);
    assert(state_cookie_name().len() == 11);
    let consented = jar.with(CookieChangeView::Store(consent_marker()));
    lemma_with(jar, CookieChangeView::Store(consent_marker()));
    lemma_with(consented, CookieChangeView::Store(state_cookie_of(nonce)));
    assert(consented.held(session_cookie_name()) == jar.held(session_cookie_name()));
}

/// The end of a login sets the session cookie only after a confirmed exchange: where
/// the exchange failed, or no token could be issued, the jar is as it was.
pub proof fn lemma_session_only_after_success(
    exchange: Result<Seq<char>, AuthServerErrorView>,
    jar: CookieJarView,
    secret: Seq<char>,
    subject: u32,
    now: i64,
)
    ensures
        ({
            let (response, after) = login_completed(exchange, jar, secret, subject, now);
            &&& after != jar ==> exchange is Ok && response is Ok
            &&& exchange is Err ==> after == jar && response == Ok::<ResponseView, TokenError>(
                error_page(exchange->Err_0),
            )
            &&& after != jar ==> after.held(session_cookie_name()) is Some
        }),
{
    match exchange {
        Err(_) => {},
        Ok(_) => {
            match issued(secret, subject, now) {
                Err(_) => {},
                Ok(token) => {
                    lemma_with(jar, CookieChangeView::Store(session_cookie_of(token)));
                },
            }
        },
    }
}

/// Ends a login at the instant `now`, given the outcome of the exchange. After a
/// confirmed exchange and with a signing key of hexadecimal digits, the browser holds a
/// session cookie whose token validates with the subject until 24 hours after `now`.
/// The provider's access token is neither shown nor stored: the session rests on the
/// token that is issued here.
pub fn complete_login(
    exchange: Result<String, AuthServerError>,
    cookies: &mut CookieJar,
    config: &Config,
    subject: u32,
    now: i64,
) -> (response: Result<Response, TokenError>)
    requires
        now + SESSION_LIFETIME <= i64::MAX,
    ensures
        (result_view(response), final(cookies)@) == login_completed(
            outcome_view(exchange),
            old(cookies)@,
            config@.jwt_key,
            subject,
            now,
        ),
        exchange is Ok ==> (response is Ok <==> config.usable()),
        exchange is Ok && config.usable() ==> holds_valid_session(
            final(cookies)@,
            config@.jwt_key,
            subject,
            now,
        ),
        response matches Ok(page) ==> page@.well_formed(),
{
    match exchange {
        Err(error) => Ok(error_view(error)),
        Ok(_) => {
            let token = issue_token(config.jwt_key.as_str(), subject, now)?;
            proof {
                lemma_pages_well_formed(
                    AuthServerErrorView::ReqwestError { detail: Seq::empty() },
                    token@,
                );
            }
            set_session(cookies, token.as_str());
            let mut context = no_context();
            push_entry(&mut context, "jwt", token);
            assert(context.deep_view() =~= seq![("jwt"@, token@)]);
            Ok(Response::Render { template: Template::LoggedIn, context })
        },
    }
}

/// Ends a login at the present instant, given the outcome of the exchange: as
/// `complete_login` does for some instant of the clock's range.
pub fn get_index_with_code(
    exchange: Result<String, AuthServerError>,
    cookies: &mut CookieJar,
    config: &Config,
    subject: u32,
) -> (response: Result<Response, TokenError>)
    ensures
        exists|now: i64|
            {
                &&& 0 <= now < 0x800_0000_0000
                &&& (result_view(response), final(cookies)@) == #[trigger] login_completed(
                    outcome_view(exchange),
                    old(cookies)@,
                    config@.jwt_key,
                    subject,
                    now,
                )
                &&& exchange is Ok && config.usable() ==> holds_valid_session(
                    final(cookies)@,
                    config@.jwt_key,
                    subject,
                    now,
                )
            },
        exchange is Ok ==> (response is Ok <==> config.usable()),
        exchange is Err ==> final(cookies)@ == old(cookies)@,
        response matches Ok(page) ==> page@.well_formed(),
{
    let now = unix_now();
    complete_login(exchange, cookies, config, subject, now)
}

/// The jar after a session token was handed in from outside a login. Only a caller
/// that the deployment trusts can have a session stored, and only with a token that
/// validates under the signing key at the instant `now`; for everyone else the jar stays
/// as it was.
pub open spec fn token_accepted(
    jar: CookieJarView,
    secret: Seq<char>,
    token: Seq<char>,
    trusted: bool,
    now: i64,
) -> CookieJarView {
    if trusted && validated(secret, token, now) is Ok {
        jar.with(CookieChangeView::Store(session_cookie_of(token)))
    } else {
        jar
    }
}

/// A token handed in by a caller that is not trusted changes no cookie, whatever the
/// token is and whether or not it validates.
pub proof fn lemma_untrusted_token_changes_nothing(
    jar: CookieJarView,
    secret: Seq<char>,
    token: Seq<char>,
    now: i64,
)
    ensures
        token_accepted(jar, secret, token, false, now) == jar,
{
}

/// Takes a session token that was issued earlier, at the instant `now`. `trusted` is
/// the caller's word that the request comes from inside the deployment and not from a
/// browser: without it nothing is stored. The browser is sent to the start page either
/// way.
pub fn accept_token(
    token: &str,
    cookies: &mut CookieJar,
    config: &Config,
    trusted: bool,
    now: i64,
) -> (response: Response)
    ensures
        response@ == home(),
        final(cookies)@ == token_accepted(old(cookies)@, config@.jwt_key, token@, trusted, now),
        !trusted ==> final(cookies)@ == old(cookies)@,
{
    if trusted {
        match validate_jwt(config.jwt_key.as_str(), token, now) {
            Ok(_) => {
                set_session(cookies, token);
            },
            Err(_) => {},
        }
    }
    Response::Proceed { target: owned("/") }
}

/// Takes a session token that was issued earlier, at the present instant: as
/// `accept_token` does for some instant of the clock's range.
pub fn get_token(token: &str, cookies: &mut CookieJar, config: &Config, trusted: bool) -> (response:
    Response)
    ensures
        response@ == home(),
        exists|now: i64|
            0 <= now < 0x800_0000_0000 && final(cookies)@ == #[trigger] token_accepted(
                old(cookies)@,
                config@.jwt_key,
                token@,
                trusted,
                now,
            ),
        !trusted ==> final(cookies)@ == old(cookies)@,
{
    let now = unix_now();
    accept_token(token, cookies, config, trusted, now)
}

/// Ends the session: the session cookie is removed and the browser sent to the start
/// page.
pub fn logout(cookies: &mut CookieJar) -> (response: Response)
    ensures
        response@ == home(),
        final(cookies)@ == old(cookies)@.with(CookieChangeView::Remove(session_removal())),
        final(cookies)@.held(session_cookie_name()) is None,
{
    clear_session(cookies);
    Response::Proceed { target: owned("/") }
}

} // verus!
