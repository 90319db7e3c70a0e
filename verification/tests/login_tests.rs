use oidc_login::config::Config;
use oidc_login::cookies::{
    consent_cookie, session_cookie, session_token, set_session, state_cookie, CookieChange,
    CookieJar,
};
use oidc_login::exchange::{get_access_token, token_request, AuthServerError, HttpReply};
use oidc_login::login::{
    accept_token, begin_exchange, complete_login, consent_gate, error_view, get_index,
    get_index_with_code, get_token, logout, post_index, LoginForm,
};
use oidc_login::response::{Response, Template};
use oidc_login::token::{issue_token, validate_jwt, JwtRaw, TokenError};

fn login_config() -> Config {
    Config {
        authorization_endpoint: "https://id.example/authorize".to_string(),
        token_endpoint: "https://id.example/token".to_string(),
        client_id: "shift-app".to_string(),
        client_secret: "s3cret".to_string(),
        redirect_uri: "https://app.example/login".to_string(),
        jwt_key: "00ff10ab".to_string(),
    }
}

fn confirmation() -> HttpReply {
    HttpReply {
        status: 200,
        body: "{\"access_token\":\"at\",\"token_type\":\"Bearer\"}".to_string(),
    }
}

fn form(value: Option<&str>) -> LoginForm {
    LoginForm { privacy_policy: value.map(str::to_string) }
}

fn render(template: Template, context: &[(&str, &str)]) -> Response {
    Response::Render {
        template,
        context: context.iter().map(|(k, v)| (k.to_string(), v.to_string())).collect(),
    }
}

#[test]
fn template_names() {
    assert_eq!(Template::Login.name(), "login");
    assert_eq!(Template::LoggedIn.name(), "loggedin");
    assert_eq!(Template::AuthError.name(), "autherror");
}

#[test]
fn entry_page_has_no_context() {
    assert_eq!(get_index(), render(Template::Login, &[]));
}

#[test]
fn only_the_literal_counts_as_consent() {
    assert!(form(Some("accepted")).is_accepted());
    assert!(!form(Some("Accepted")).is_accepted());
    assert!(!form(Some("accepted ")).is_accepted());
    assert!(!form(Some("on")).is_accepted());
    assert!(!form(Some("")).is_accepted());
    assert!(!form(None).is_accepted());
}

#[test]
fn accepted_consent_redirects_to_the_provider() {
    let mut jar = CookieJar::new();
    let response = consent_gate(&form(Some("accepted")), &mut jar, &login_config(), "n0nce");
    assert_eq!(
        response,
        Response::Proceed {
            target: "https://id.example/authorize?response_type=code&client_id=shift-app&redirect_uri=https%3A%2F%2Fapp.example%2Flogin&scope=openid&state=n0nce".to_string()
        }
    );
    assert_eq!(
        jar.changes(),
        &vec![CookieChange::Store(consent_cookie()), CookieChange::Store(state_cookie("n0nce"))]
    );
    assert_eq!(session_token(&jar), None);
}

#[test]
fn accepted_consent_gets_a_fresh_nonce() {
    let mut first_jar = CookieJar::new();
    let mut second_jar = CookieJar::new();
    let first = post_index(&form(Some("accepted")), &mut first_jar, &login_config());
    let second = post_index(&form(Some("accepted")), &mut second_jar, &login_config());
    let prefix = "https://id.example/authorize?response_type=code&client_id=shift-app&redirect_uri=https%3A%2F%2Fapp.example%2Flogin&scope=openid&state=";
    let nonce = |response: &Response| match response {
        Response::Proceed { target } => {
            assert!(target.starts_with(prefix));
            target[prefix.len()..].to_string()
        }
        other => panic!("no redirect: {:?}", other),
    };
    let (first, second) = (nonce(&first), nonce(&second));
    assert_eq!(first.len(), 36);
    assert!(first.chars().all(|c| c == '-' || c.is_ascii_digit() || ('a'..='f').contains(&c)));
    assert_ne!(first, second);
    assert_eq!(first_jar.get("oauth_state").map(|c| c.value.clone()), Some(first));
    assert_eq!(second_jar.get("oauth_state").map(|c| c.value.clone()), Some(second));
    assert_eq!(first_jar.get("privacy_policy"), Some(&consent_cookie()));
}

#[test]
fn rejected_consent_sets_no_cookie_and_marks_the_form() {
    for value in [None, Some(""), Some("on"), Some("ACCEPTED")] {
        let mut jar = CookieJar::new();
        let response = post_index(&form(value), &mut jar, &login_config());
        assert_eq!(response, render(Template::Login, &[("checkbox_class", "invalid-feedback")]));
        assert_eq!(response.value_of("checkbox_class"), Some("invalid-feedback".to_string()));
        assert!(jar.changes().is_empty());
        assert_eq!(jar.get("privacy_policy"), None);
        assert_eq!(session_token(&jar), None);
    }
}

#[test]
fn callback_with_the_nonce_describes_the_exchange() {
    let mut jar = CookieJar::new();
    jar.receive("oauth_state", "n0nce");
    let step = begin_exchange("c0de", "n0nce", &mut jar, &login_config());
    assert_eq!(step, Ok(token_request(&login_config(), "c0de")));
    assert_eq!(jar.changes(), &vec![CookieChange::Remove(state_cookie(""))]);
    assert_eq!(jar.get("oauth_state"), None);
}

#[test]
fn callback_without_the_nonce_is_refused() {
    let refused = render(Template::AuthError, &[("code", ""), ("body", "state mismatch")]);
    let mut jar = CookieJar::new();
    assert_eq!(begin_exchange("c0de", "n0nce", &mut jar, &login_config()), Err(refused));
    assert!(jar.changes().is_empty());

    let refused = render(Template::AuthError, &[("code", ""), ("body", "state mismatch")]);
    let mut jar = CookieJar::new();
    jar.receive("oauth_state", "other");
    assert_eq!(begin_exchange("c0de", "n0nce", &mut jar, &login_config()), Err(refused));
    assert!(jar.changes().is_empty());

    let refused = render(Template::AuthError, &[("code", ""), ("body", "state mismatch")]);
    let mut jar = CookieJar::new();
    jar.receive("oauth_state", "");
    assert_eq!(begin_exchange("c0de", "", &mut jar, &login_config()), Err(refused));
    assert!(jar.changes().is_empty());
}

#[test]
fn nonce_is_used_up_by_one_callback() {
    let mut jar = CookieJar::new();
    consent_gate(&form(Some("accepted")), &mut jar, &login_config(), "n0nce");
    assert!(begin_exchange("c0de", "n0nce", &mut jar, &login_config()).is_ok());
    assert!(begin_exchange("c0de", "n0nce", &mut jar, &login_config()).is_err());
}

#[test]
fn provider_200_then_issue_gives_a_session() {
    let exchange = get_access_token(Ok(confirmation()));
    let mut jar = CookieJar::new();
    let response = complete_login(exchange, &mut jar, &login_config(), 42, 1_700_000_000).unwrap();
    let token = issue_token("00ff10ab", 42, 1_700_000_000).unwrap();
    assert_eq!(response, render(Template::LoggedIn, &[("jwt", &token)]));
    assert_eq!(jar.changes(), &vec![CookieChange::Store(session_cookie(&token))]);
    assert_eq!(session_token(&jar), Some(token.clone()));
    assert_eq!(
        validate_jwt("00ff10ab", &token, 1_700_000_000),
        Ok(JwtRaw { sub: 42, exp: 1_700_000_000 + 86_400 })
    );
    assert_eq!(validate_jwt("00ff10ac", &token, 1_700_000_000), Err(TokenError::InvalidToken));
}

#[test]
fn provider_200_now_gives_a_session_for_24_hours() {
    let exchange = get_access_token(Ok(confirmation()));
    let mut jar = CookieJar::new();
    let before = chrono::Utc::now().timestamp();
    let response = get_index_with_code(exchange, &mut jar, &login_config(), 42).unwrap();
    let token = session_token(&jar).unwrap();
    assert_eq!(response.value_of("jwt"), Some(token.clone()));
    let claims = validate_jwt("00ff10ab", &token, before).unwrap();
    assert_eq!(claims.sub, 42);
    assert!(claims.exp >= before + 86_400);
    assert!(claims.exp - (before + 86_400) <= 5);
}

#[test]
fn provider_403_shows_status_and_body() {
    let exchange =
        get_access_token(Ok(HttpReply { status: 403, body: "invalid_grant".to_string() }));
    let mut jar = CookieJar::new();
    let response = get_index_with_code(exchange, &mut jar, &login_config(), 42).unwrap();
    assert_eq!(response, render(Template::AuthError, &[("code", "403"), ("body", "invalid_grant")]));
    assert_eq!(response.value_of("code"), Some("403".to_string()));
    assert_eq!(response.value_of("body"), Some("invalid_grant".to_string()));
    assert_eq!(response.value_of("jwt"), None);
    assert!(jar.changes().is_empty());
    assert_eq!(session_token(&jar), None);
}

#[test]
fn transport_failure_shows_its_description() {
    let exchange = get_access_token(Err("connection refused".to_string()));
    let mut jar = CookieJar::new();
    let response = get_index_with_code(exchange, &mut jar, &login_config(), 42).unwrap();
    assert_eq!(
        response,
        render(Template::AuthError, &[("code", ""), ("body", "connection refused")])
    );
    assert!(jar.changes().is_empty());
    assert_eq!(session_token(&jar), None);
}

#[test]
fn error_view_shows_nothing_of_the_settings() {
    let response = error_view(AuthServerError::HttpStateError {
        state: 500,
        body: "oops".to_string(),
    });
    assert_eq!(response, render(Template::AuthError, &[("code", "500"), ("body", "oops")]));
}

#[test]
fn malformed_key_ends_the_login_without_a_session() {
    let mut config = login_config();
    config.jwt_key = "nothex".to_string();
    let mut jar = CookieJar::new();
    assert_eq!(
        complete_login(Ok("{}".to_string()), &mut jar, &config, 0, 1_700_000_000),
        Err(TokenError::InvalidSigningKey)
    );
    assert!(jar.changes().is_empty());
    let mut jar = CookieJar::new();
    assert_eq!(
        get_index_with_code(Ok("{}".to_string()), &mut jar, &config, 0),
        Err(TokenError::InvalidSigningKey)
    );
    assert!(jar.changes().is_empty());
}

#[test]
fn logout_ends_the_session() {
    let mut jar = CookieJar::new();
    let exchange = get_access_token(Ok(confirmation()));
    complete_login(exchange, &mut jar, &login_config(), 1, 1_700_000_000).unwrap();
    assert!(session_token(&jar).is_some());
    assert_eq!(logout(&mut jar), Response::Proceed { target: "/".to_string() });
    assert_eq!(session_token(&jar), None);
    assert_eq!(jar.get("x_auth_token"), None);
}

#[test]
fn logout_of_a_session_from_an_earlier_request() {
    let mut jar = CookieJar::new();
    jar.receive("x_auth_token", "tok");
    logout(&mut jar);
    assert_eq!(session_token(&jar), None);
    match &jar.changes()[0] {
        CookieChange::Remove(removal) => assert_eq!(removal.name, "x_auth_token"),
        other => panic!("not a removal: {:?}", other),
    }
}

#[test]
fn provider_200_gives_a_session_whatever_the_body() {
    for body in ["{}", "", "got token!"] {
        let exchange = get_access_token(Ok(HttpReply { status: 200, body: body.to_string() }));
        let mut jar = CookieJar::new();
        let response =
            complete_login(exchange, &mut jar, &login_config(), 42, 1_700_000_000).unwrap();
        let token = issue_token("00ff10ab", 42, 1_700_000_000).unwrap();
        assert_eq!(response, render(Template::LoggedIn, &[("jwt", &token)]));
        assert_eq!(jar.changes(), &vec![CookieChange::Store(session_cookie(&token))]);
    }
}

#[test]
fn session_if_and_only_if_status_200() {
    for status in [199u16, 201, 302, 403, 500] {
        let exchange = get_access_token(Ok(HttpReply { status, body: "{}".to_string() }));
        let mut jar = CookieJar::new();
        complete_login(exchange, &mut jar, &login_config(), 42, 1_700_000_000).unwrap();
        assert_eq!(session_token(&jar), None);
        assert!(jar.changes().is_empty());
    }
    let mut jar = CookieJar::new();
    complete_login(get_access_token(Ok(confirmation())), &mut jar, &login_config(), 42, 1_700_000_000)
        .unwrap();
    assert!(session_token(&jar).is_some());
    assert_eq!(jar.changes().len(), 1);
}

#[test]
fn handed_in_token_of_a_trusted_caller_is_taken_only_if_it_validates() {
    let token = issue_token("00ff10ab", 5, 1_700_000_000).unwrap();
    let home = Response::Proceed { target: "/".to_string() };

    let mut jar = CookieJar::new();
    assert_eq!(accept_token(&token, &mut jar, &login_config(), true, 1_700_000_100), home);
    assert_eq!(session_token(&jar), Some(token.clone()));
    assert_eq!(jar.changes(), &vec![CookieChange::Store(session_cookie(&token))]);

    let mut jar = CookieJar::new();
    assert_eq!(accept_token(&token, &mut jar, &login_config(), true, 1_700_086_400), home);
    assert!(jar.changes().is_empty());

    let mut jar = CookieJar::new();
    assert_eq!(accept_token("anything", &mut jar, &login_config(), true, 1_700_000_100), home);
    assert!(jar.changes().is_empty());

    let foreign = issue_token("00ff10ac", 5, 1_700_000_000).unwrap();
    let mut jar = CookieJar::new();
    assert_eq!(accept_token(&foreign, &mut jar, &login_config(), true, 1_700_000_100), home);
    assert!(jar.changes().is_empty());
}

#[test]
fn handed_in_token_of_any_other_caller_changes_no_cookie() {
    let token = issue_token("00ff10ab", 5, 1_700_000_000).unwrap();
    let home = Response::Proceed { target: "/".to_string() };

    let mut jar = CookieJar::new();
    assert_eq!(accept_token(&token, &mut jar, &login_config(), false, 1_700_000_100), home);
    assert!(jar.changes().is_empty());
    assert_eq!(session_token(&jar), None);

    let fresh = issue_token("00ff10ab", 5, chrono::Utc::now().timestamp()).unwrap();
    let mut jar = CookieJar::new();
    set_session(&mut jar, "kept");
    assert_eq!(get_token(&fresh, &mut jar, &login_config(), false), home);
    assert_eq!(session_token(&jar), Some("kept".to_string()));
    assert_eq!(jar.changes().len(), 1);
}

#[test]
fn handed_in_token_now() {
    let fresh = issue_token("00ff10ab", 5, chrono::Utc::now().timestamp()).unwrap();
    let mut jar = CookieJar::new();
    get_token(&fresh, &mut jar, &login_config(), true);
    assert_eq!(session_token(&jar), Some(fresh));

    let stale = issue_token("00ff10ab", 5, 1_000).unwrap();
    let mut jar = CookieJar::new();
    set_session(&mut jar, "kept");
    get_token(&stale, &mut jar, &login_config(), true);
    assert_eq!(session_token(&jar), Some("kept".to_string()));
}
