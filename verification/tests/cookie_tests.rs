use oidc_login::cookies::{
    clear_session, consent_cookie, session_cookie, session_token, set_session, state_cookie,
    Cookie, CookieChange, CookieJar, SameSite,
};

fn plain_cookie(name: &str, value: &str) -> Cookie {
    Cookie {
        name: name.to_string(),
        value: value.to_string(),
        path: String::new(),
        secure: false,
        http_only: false,
        same_site: None,
        max_age: None,
    }
}

#[test]
fn session_cookie_has_its_attributes() {
    let cookie = session_cookie("tok");
    assert_eq!(cookie.name, "x_auth_token");
    assert_eq!(cookie.value, "tok");
    assert_eq!(cookie.path, "/");
    assert!(cookie.secure);
    assert!(cookie.http_only);
    assert_eq!(cookie.same_site, Some(SameSite::Lax));
    assert_eq!(cookie.max_age, Some(86_400));
}

#[test]
fn consent_cookie_has_its_attributes() {
    let cookie = consent_cookie();
    assert_eq!(cookie.name, "privacy_policy");
    assert_eq!(cookie.value, "accepted");
    assert_eq!(cookie.path, "/");
    assert!(cookie.secure);
    assert!(!cookie.http_only);
    assert_eq!(cookie.same_site, None);
    assert_eq!(cookie.max_age, None);
}

#[test]
fn state_cookie_has_its_attributes() {
    let cookie = state_cookie("n0nce");
    assert_eq!(cookie.name, "oauth_state");
    assert_eq!(cookie.value, "n0nce");
    assert_eq!(cookie.path, "/");
    assert!(cookie.secure);
    assert!(cookie.http_only);
    assert_eq!(cookie.same_site, Some(SameSite::Lax));
    assert_eq!(cookie.max_age, None);
}

#[test]
fn new_jar_holds_nothing() {
    let jar = CookieJar::new();
    assert_eq!(jar.get("x_auth_token"), None);
    assert!(jar.changes().is_empty());
    assert_eq!(session_token(&jar), None);
}

#[test]
fn jar_holds_what_the_browser_sent() {
    let mut jar = CookieJar::new();
    jar.receive("a", "1");
    jar.receive("b", "2");
    jar.receive("a", "3");
    assert_eq!(jar.get("a"), Some(&plain_cookie("a", "1")));
    assert_eq!(jar.get("b"), Some(&plain_cookie("b", "2")));
    assert_eq!(jar.get("c"), None);
    assert!(jar.changes().is_empty());
}

#[test]
fn last_change_to_a_name_wins() {
    let mut jar = CookieJar::new();
    jar.receive("a", "1");
    jar.add(plain_cookie("a", "2"));
    assert_eq!(jar.get("a"), Some(&plain_cookie("a", "2")));
    jar.add(plain_cookie("b", "x"));
    assert_eq!(jar.get("a"), Some(&plain_cookie("a", "2")));
    jar.remove(plain_cookie("a", ""));
    assert_eq!(jar.get("a"), None);
    assert_eq!(jar.get("b"), Some(&plain_cookie("b", "x")));
    jar.add(plain_cookie("a", "4"));
    assert_eq!(jar.get("a"), Some(&plain_cookie("a", "4")));
    assert_eq!(
        jar.changes(),
        &vec![
            CookieChange::Store(plain_cookie("a", "2")),
            CookieChange::Store(plain_cookie("b", "x")),
            CookieChange::Remove(plain_cookie("a", "")),
            CookieChange::Store(plain_cookie("a", "4")),
        ]
    );
}

#[test]
fn set_session_stores_the_token() {
    let mut jar = CookieJar::new();
    set_session(&mut jar, "tok");
    assert_eq!(session_token(&jar), Some("tok".to_string()));
    assert_eq!(jar.changes(), &vec![CookieChange::Store(session_cookie("tok"))]);
}

#[test]
fn clear_session_names_the_cookie_as_it_was_stored() {
    let mut jar = CookieJar::new();
    clear_session(&mut jar);
    let stored = session_cookie("tok");
    match &jar.changes()[0] {
        CookieChange::Remove(removal) => {
            assert_eq!(removal.name, stored.name);
            assert_eq!(removal.path, stored.path);
            assert_eq!(removal.secure, stored.secure);
            assert_eq!(removal.http_only, stored.http_only);
            assert_eq!(removal.same_site, stored.same_site);
            assert_eq!(removal.value, "");
        }
        other => panic!("not a removal: {:?}", other),
    }
    assert_eq!(jar.changes().len(), 1);
}

#[test]
fn cleared_session_is_gone() {
    let mut jar = CookieJar::new();
    jar.receive("x_auth_token", "old");
    assert_eq!(session_token(&jar), Some("old".to_string()));
    set_session(&mut jar, "new");
    assert_eq!(session_token(&jar), Some("new".to_string()));
    clear_session(&mut jar);
    assert_eq!(session_token(&jar), None);
    assert_eq!(jar.get("x_auth_token"), None);
}
