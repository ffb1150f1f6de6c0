use crusty_crawler::auth::AuthManager;
use crusty_crawler::gate::authorize;
use crusty_crawler::gate::index_page;
use crusty_crawler::gate::status_code;
use crusty_crawler::gate::LandingPage;
use crusty_crawler::gate::Unauthorized;
use crusty_crawler::gate::STATUS_OK;
use crusty_crawler::gate::STATUS_UNAUTHORIZED;

fn store_with_alice() -> AuthManager {
    let mut store = AuthManager::new("crusty_auth.json", None).unwrap();
    let outcome = store.complete_registration(
        "alice",
        "a@x.com",
        "tok12345",
        Ok("$2a$04$UuTkLRZZ6QofpDOlMz32MuuxEHA43WOemOYHPz6.SjsVsyO1tDU96".to_string()),
        "2025-06-01T12:00:00+00:00".to_string(),
    );
    assert_eq!(outcome, Ok(()));
    store
}

#[test]
fn a_request_acts_for_the_owner_of_its_token() {
    let store = store_with_alice();
    assert_eq!(authorize(&store, Some("tok12345")), Ok("alice".to_string()));
    assert_eq!(authorize(&store, Some("bogus")), Err(Unauthorized));
    assert_eq!(authorize(&store, Some("")), Err(Unauthorized));
    assert_eq!(authorize(&store, None), Err(Unauthorized));
}

#[test]
fn the_status_endpoint_is_served_to_token_owners_only() {
    let store = store_with_alice();
    assert_eq!(status_code(&store, Some("tok12345")), 200);
    assert_eq!(status_code(&store, Some("tok1234")), 401);
    assert_eq!(status_code(&store, None), 401);
    assert_eq!(STATUS_OK, 200);
    assert_eq!(STATUS_UNAUTHORIZED, 401);
}

#[test]
fn the_landing_page_asks_for_a_token_where_none_was_given() {
    let store = store_with_alice();
    assert_eq!(index_page(&store, Some("tok12345")), LandingPage::Shell);
    assert_eq!(index_page(&store, Some("bogus")), LandingPage::Refused);
    assert_eq!(index_page(&store, None), LandingPage::Login);
    assert_eq!(LandingPage::Shell.status_code(), 200);
    assert_eq!(LandingPage::Login.status_code(), 200);
    assert_eq!(LandingPage::Refused.status_code(), 401);
}

#[test]
fn nobody_is_authorized_on_an_empty_store() {
    let store = AuthManager::new("crusty_auth.json", None).unwrap();
    assert_eq!(authorize(&store, Some("tok12345")), Err(Unauthorized));
    assert_eq!(index_page(&store, Some("tok12345")), LandingPage::Refused);
    assert_eq!(index_page(&store, None), LandingPage::Login);
}
