//! The authorization-code exchange: where the browser is sent, what is posted to the
//! provider, and how the provider's answer is read.

use vstd::prelude::*;
use vstd::string::StringExecFns;

use crate::config::{Config, ConfigView};
use crate::encoding::{encode_component, percent_encode};
use crate::text::owned;

verus! {

/// The provider's authorization URL for this client and one anti-forgery nonce.
pub open spec fn authorization_url(config: ConfigView, nonce: Seq<char>) -> Seq<char> {
    config.authorization_endpoint + "?response_type=code&client_id="@ + config.client_id
        + "&redirect_uri="@ + percent_encode(config.redirect_uri) + "&scope=openid&state="@
        + nonce
}

/// Builds the URL that starts the login at the provider.
pub fn start_oauth_uri(config: &Config, nonce: &str) -> (uri: String)
    ensures
        uri@ == authorization_url(config@, nonce@),
{
    let mut uri = config.authorization_endpoint.clone();
    uri.append("?response_type=code&client_id=");
    uri.append(config.client_id.as_str());
    uri.append("&redirect_uri=");
    uri.append(encode_component(config.redirect_uri.as_str()).as_str());
    uri.append("&scope=openid&state=");
    uri.append(nonce);
    uri
}

/// Whether `part` stands somewhere in `text`, unbroken.
pub open spec fn has_part(text: Seq<char>, part: Seq<char>) -> bool {
    exists|at: int|
        0 <= at && at + part.len() <= text.len() && #[trigger] text.subrange(
            at,
            at + part.len(),
        ) == part
}

/// The authorization URL names the client, carries the redirect URI percent-encoded,
/// and asks for the scope `openid`, whatever the settings and the nonce are.
pub proof fn lemma_authorization_url_parts(config: ConfigView, nonce: Seq<char>)
    ensures
        has_part(authorization_url(config, nonce), "client_id="@ + config.client_id),
        has_part(
            authorization_url(config, nonce),
            "redirect_uri="@ + percent_encode(config.redirect_uri),
        ),
        has_part(authorization_url(config, nonce), "scope=openid"@),
{
    reveal_strlit("?response_type=code&client_id=");
    reveal_strlit("&redirect_uri=");
    reveal_strlit("&scope=openid&state=");
    reveal_strlit("client_id=");
    reveal_strlit("redirect_uri=");
    reveal_strlit("scope=openid");
    let url = authorization_url(config, nonce);
    let start = config.authorization_endpoint.len() as int;
    let client = config.client_id;
    let encoded = percent_encode(config.redirect_uri);
    let at_client = start + 20;
    let at_redirect = start + 30 + client.len() + 1;
    let at_scope = start + 30 + client.len() + 14 + encoded.len() + 1;
    assert(url.subrange(at_client, at_client + ("client_id="@ + client).len()) =~= "client_id="@
        + client);
    assert(url.subrange(at_redirect, at_redirect + ("redirect_uri="@ + encoded).len())
        =~= "redirect_uri="@ + encoded);
    assert(url.subrange(at_scope, at_scope + "scope=openid"@.len()) =~= "scope=openid"@);
}

/// The form that trades an authorization code at the token endpoint.
pub open spec fn token_form(config: ConfigView, code: Seq<char>) -> Seq<char> {
    "grant_type=authorization_code&code="@ + code + "&client_id="@ + config.client_id
        + "&redirect_uri="@ + percent_encode(config.redirect_uri) + "&client_secret="@
        + config.client_secret
}

/// Builds the form-encoded body of the token request.
pub fn token_body(config: &Config, code: &str) -> (body: String)
    ensures
        body@ == token_form(config@, code@),
{
    let mut body = owned("grant_type=authorization_code&code=");
    body.append(code);
    body.append("&client_id=");
    body.append(config.client_id.as_str());
    body.append("&redirect_uri=");
    body.append(encode_component(config.redirect_uri.as_str()).as_str());
    body.append("&client_secret=");
    body.append(config.client_secret.as_str());
    body
}

/// The one request that trades a code: a POST, sent once and never repeated.
#[derive(Debug, PartialEq, Eq)]
pub struct TokenRequest {
    pub url: String,
    pub content_type: String,
    pub user_agent: String,
    pub body: String,
    /// Whether the sender may keep cookies between requests: it may not.
    pub cookie_store: bool,
    /// After how many seconds the sender gives up.
    pub timeout_seconds: u64,
}

/// A token request as plain values.
pub struct TokenRequestView {
    pub url: Seq<char>,
    pub content_type: Seq<char>,
    pub user_agent: Seq<char>,
    pub body: Seq<char>,
    pub cookie_store: bool,
    pub timeout_seconds: u64,
}

impl View for TokenRequest {
    type V = TokenRequestView;

    open spec fn view(&self) -> TokenRequestView {
        TokenRequestView {
            url: self.url@,
            content_type: self.content_type@,
            user_agent: self.user_agent@,
            body: self.body@,
            cookie_store: self.cookie_store,
            timeout_seconds: self.timeout_seconds,
        }
    }
}

/// How long the provider may take to answer, in seconds.
pub const EXCHANGE_TIMEOUT_SECONDS: u64 = 5;

/// The token request for a code.
pub open spec fn token_request_of(config: ConfigView, code: Seq<char>) -> TokenRequestView {
    TokenRequestView {
        url: config.token_endpoint,
        content_type: "application/x-www-form-urlencoded"@,
        user_agent: "Schichtvertretung"@,
        body: token_form(config, code),
        cookie_store: false,
        timeout_seconds: EXCHANGE_TIMEOUT_SECONDS,
    }
}

/// Describes the request that trades `code` for the provider's confirmation.
pub fn token_request(config: &Config, code: &str) -> (request: TokenRequest)
    ensures
        request@ == token_request_of(config@, code@),
{
    TokenRequest {
        url: config.token_endpoint.clone(),
        content_type: owned("application/x-www-form-urlencoded"),
        user_agent: owned("Schichtvertretung"),
        body: token_body(config, code),
        cookie_store: false,
        timeout_seconds: EXCHANGE_TIMEOUT_SECONDS,
    }
}

/// The provider's confirmation of a successful exchange, read as JSON.
#[derive(Debug, PartialEq, Eq)]
pub struct TokenResponse {
    pub access_token: String,
    pub token_type: String,
}

/// A confirmation as plain values.
pub struct TokenResponseView {
    pub access_token: Seq<char>,
    pub token_type: Seq<char>,
}

impl View for TokenResponse {
    type V = TokenResponseView;

    open spec fn view(&self) -> TokenResponseView {
        TokenResponseView { access_token: self.access_token@, token_type: self.token_type@ }
    }
}

/// The text that a JSON document gives for a name: the document is an object, it has
/// a member of that name, and the member is a string.
pub uninterp spec fn json_text_member(document: Seq<char>, name: Seq<char>) -> Option<Seq<char>>;

/// Calls `serde_json::from_str` for a `Value`, then `Value::get` with the name and
/// `Value::as_str` on what it finds: the string member of that name, if the document
/// parses as JSON, is an object and has one.
#[verifier::external_body]
fn json_text(document: &str, name: &str) -> (text: Option<String>)
    ensures
        text.deep_view() == json_text_member(document@, name@),
{
    let value: serde_json::Value = serde_json::from_str(document).ok()?;
    value.get(name)?.as_str().map(String::from)
}

/// What a confirmation holds: the access token and its type, where the body names
/// both.
pub open spec fn token_response_of(body: Seq<char>) -> Option<TokenResponseView> {
    match (json_text_member(body, "access_token"@), json_text_member(body, "token_type"@)) {
        (Some(access_token), Some(token_type)) => Some(
            TokenResponseView { access_token, token_type },
        ),
        _ => None,
    }
}

impl TokenResponse {
    /// Reads the access token and its type out of the provider's confirmation.
    pub fn parse(body: &str) -> (parsed: Option<TokenResponse>)
        ensures
            match parsed {
                Some(response) => token_response_of(body@) == Some(response@),
                None => token_response_of(body@) is None,
            },
    {
        let access_token = json_text(body, "access_token")?;
        let token_type = json_text(body, "token_type")?;
        Some(TokenResponse { access_token, token_type })
    }
}

/// What came back from the token endpoint.
#[derive(Debug, PartialEq, Eq)]
pub struct HttpReply {
    pub status: u16,
    pub body: String,
}

/// Why the exchange gave no confirmation.
#[derive(Debug, PartialEq, Eq)]
pub enum AuthServerError {
    /// The request did not get through: no connection, a TLS failure, a timeout.
    ReqwestError { detail: String },
    /// The provider answered with a status other than 200.
    HttpStateError { state: u16, body: String },
}

/// A failed exchange as plain values.
pub enum AuthServerErrorView {
    ReqwestError { detail: Seq<char> },
    HttpStateError { state: u16, body: Seq<char> },
}

impl View for AuthServerError {
    type V = AuthServerErrorView;

    open spec fn view(&self) -> AuthServerErrorView {
        match self {
            AuthServerError::ReqwestError { detail } => AuthServerErrorView::ReqwestError {
                detail: detail@,
            },
            AuthServerError::HttpStateError { state, body } => AuthServerErrorView::HttpStateError {
                state: *state,
                body: body@,
            },
        }
    }
}

/// The outcome of an exchange as plain values.
pub open spec fn outcome_view(outcome: Result<String, AuthServerError>) -> Result<
    Seq<char>,
    AuthServerErrorView,
> {
    match outcome {
        Ok(confirmation) => Ok(confirmation@),
        Err(error) => Err(error@),
    }
}

/// The access token that a confirmation carries: the one that its body names beside
/// the token's type, and the empty text where the body names none.
pub open spec fn access_token_of(body: Seq<char>) -> Seq<char> {
    match token_response_of(body) {
        Some(confirmation) => confirmation.access_token,
        None => Seq::empty(),
    }
}

/// How what came back is read. A transport failure stays one. An answer with a status
/// other than 200 is the provider's refusal, with its status and its body as they came.
/// Every answer with status 200 confirms the exchange, and the access token of its body
/// is carried on.
pub open spec fn exchange_outcome(reply: Result<HttpReply, String>) -> Result<
    Seq<char>,
    AuthServerErrorView,
> {
    match reply {
        Err(detail) => Err(AuthServerErrorView::ReqwestError { detail: detail@ }),
        Ok(answer) => if answer.status == 200 {
            Ok(access_token_of(answer.body@))
        } else {
            Err(AuthServerErrorView::HttpStateError { state: answer.status, body: answer.body@ })
        },
    }
}

/// Reads what came back from the token endpoint. The exchange is confirmed by status
/// 200 and by nothing else, and the provider's access token is handed out with it: the
/// empty text where the confirmation names none.
pub fn get_access_token(reply: Result<HttpReply, String>) -> (outcome: Result<
    String,
    AuthServerError,
>)
    ensures
        outcome_view(outcome) == exchange_outcome(reply),
        outcome is Ok <==> (reply matches Ok(answer) && answer.status == 200),
        outcome matches Err(AuthServerError::HttpStateError { .. }) <==> (reply matches Ok(answer)
            && answer.status != 200),
        outcome matches Err(AuthServerError::ReqwestError { .. }) <==> reply is Err,
{
    match reply {
        Err(detail) => Err(AuthServerError::ReqwestError { detail }),
        Ok(answer) => {
            if answer.status == 200 {
                match TokenResponse::parse(answer.body.as_str()) {
                    Some(confirmation) => Ok(confirmation.access_token),
                    None => Ok(String::new()),
                }
            } else {
                Err(AuthServerError::HttpStateError { state: answer.status, body: answer.body })
            }
        },
    }
}

} // verus!
