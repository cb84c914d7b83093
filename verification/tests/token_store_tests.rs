use spotty::api::token_store::{Credentials, Timestamp, TokenLookup, TokenStoreError};
use spotty::api::TokenStore;

fn creds(token: &str) -> Credentials {
    Credentials {
        access_token: token.to_string(),
        refresh_token: format!("refresh-{}", token),
        token_expiry_time: Some(Timestamp { secs: 1_700_000_000, nanos: 5 }),
    }
}

#[test]
fn new_store_is_empty() {
    let s = TokenStore::new();
    assert_eq!(s.get_cached_blocking(), None);
    assert_eq!(s.get_cached(), None);
    assert_eq!(s.get(), TokenLookup::Retrieve);
}

#[test]
fn read_after_write() {
    let mut s = TokenStore::new();
    s.set(creds("a"));
    assert_eq!(s.get_cached_blocking(), Some(creds("a")));
    assert_eq!(s.get(), TokenLookup::Cached(creds("a")));
    s.set(creds("b"));
    assert_eq!(s.get_cached(), Some(creds("b")));
}

#[test]
fn clear_forgets() {
    let mut s = TokenStore::new();
    s.set(creds("a"));
    s.clear();
    assert_eq!(s.get_cached_blocking(), None);
    assert_eq!(s.get(), TokenLookup::Retrieve);
}

#[test]
fn retrieved_credentials_are_cached() {
    let mut s = TokenStore::new();
    assert_eq!(s.store_retrieved(None), None);
    assert_eq!(s.get(), TokenLookup::Retrieve);
    assert_eq!(s.store_retrieved(Some(creds("k"))), Some(creds("k")));
    assert_eq!(s.get(), TokenLookup::Cached(creds("k")));
    assert_eq!(s.store_retrieved(None), None);
    assert_eq!(s.get_cached(), Some(creds("k")));
}

#[test]
fn keyring_items() {
    assert_eq!(TokenStore::retrieve_target(3), Ok(0));
    assert_eq!(TokenStore::retrieve_target(0), Err(TokenStoreError::EmptyKeyring));
    assert_eq!(TokenStore::logout_target(1), Some(0));
    assert_eq!(TokenStore::logout_target(0), None);
}
