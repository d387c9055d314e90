use venmo_tui::store::CredentialStore;

fn pairs(store: &CredentialStore) -> Vec<(String, String)> {
    store.for_each_persisted_cookie()
}

fn pair(name: &str, value: &str) -> (String, String) {
    (name.to_string(), value.to_string())
}

#[test]
fn a_new_store_keeps_nothing() {
    let store = CredentialStore::new();
    assert_eq!(store.len(), 0);
    assert!(pairs(&store).is_empty());
    assert_eq!(store.lookup("v_id"), None);
}

#[test]
fn a_persisted_cookie_is_read_back_with_the_same_name_and_value() {
    let mut store = CredentialStore::new();
    store.persist_cookie("v_id", "v_id=fp01-abc; Path=/");
    assert_eq!(pairs(&store), vec![pair("v_id", "v_id=fp01-abc; Path=/")]);
    assert_eq!(store.lookup("v_id"), Some("v_id=fp01-abc; Path=/".to_string()));
}

#[test]
fn the_last_write_under_a_name_wins() {
    let mut store = CredentialStore::new();
    store.persist_cookie("a", "a=1");
    store.persist_cookie("b", "b=1");
    store.persist_cookie("a", "a=2");
    assert_eq!(store.len(), 2);
    assert_eq!(store.lookup("a"), Some("a=2".to_string()));
    assert_eq!(store.lookup("b"), Some("b=1".to_string()));
}

#[test]
fn a_rewritten_cookie_keeps_its_place() {
    let mut store = CredentialStore::new();
    store.persist_cookie("a", "a=1");
    store.persist_cookie("b", "b=1");
    store.persist_cookie("c", "c=1");
    store.persist_cookie("b", "b=2");
    assert_eq!(pairs(&store), vec![pair("a", "a=1"), pair("b", "b=2"), pair("c", "c=1")]);
}

#[test]
fn names_are_told_apart_exactly() {
    let mut store = CredentialStore::new();
    store.persist_cookie("token", "1");
    store.persist_cookie("Token", "2");
    store.persist_cookie("token ", "3");
    store.persist_cookie("", "4");
    assert_eq!(store.len(), 4);
    assert_eq!(store.lookup("token"), Some("1".to_string()));
    assert_eq!(store.lookup("Token"), Some("2".to_string()));
    assert_eq!(store.lookup("token "), Some("3".to_string()));
    assert_eq!(store.lookup(""), Some("4".to_string()));
    assert_eq!(store.lookup("toke"), None);
}

#[test]
fn clearing_forgets_every_cookie() {
    let mut store = CredentialStore::new();
    store.persist_cookie("a", "a=1");
    store.persist_cookie("b", "b=1");
    store.clear_all();
    assert_eq!(store.len(), 0);
    assert!(pairs(&store).is_empty());
    assert_eq!(store.lookup("a"), None);
    store.persist_cookie("b", "b=9");
    assert_eq!(pairs(&store), vec![pair("b", "b=9")]);
}

#[test]
fn reloading_what_was_read_back_gives_the_same_store() {
    let mut store = CredentialStore::new();
    store.persist_cookie("api_access_token", "api_access_token=abc; Path=/");
    store.persist_cookie("v_id", "v_id=1");
    store.persist_cookie("api_access_token", "api_access_token=def; Path=/");
    let saved = pairs(&store);
    let mut reloaded = CredentialStore::new();
    for (name, value) in saved.iter() {
        reloaded.persist_cookie(name, value);
    }
    assert_eq!(pairs(&reloaded), saved);
}
