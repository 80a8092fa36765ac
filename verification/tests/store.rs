use token_gateway::model::TokenRecord;
use token_gateway::store::{LookupKey, TokenStore};

fn record(name: &str, secret: &str, owner_id: i64) -> TokenRecord {
    TokenRecord {
        name: name.to_string(),
        secret: secret.to_string(),
        owner_id,
        expires_at: None,
    }
}

fn two_owner_store() -> TokenStore {
    TokenStore {
        records: vec![
            record("ci", "sk_abc", 1),
            record("deploy", "sk_xyz", 2),
            record("ci", "sk_carol", 3),
        ],
    }
}

#[test]
fn name_lookup_is_scoped_to_the_owner() {
    let store = two_owner_store();
    let hit = store.find_by_name(1, &"ci".to_string()).unwrap();
    assert_eq!(hit.secret, "sk_abc");
    assert_eq!(hit.owner_id, 1);
    // The same name as another owner resolves to that owner's record.
    let other = store.find_by_name(3, &"ci".to_string()).unwrap();
    assert_eq!(other.secret, "sk_carol");
    assert_eq!(other.owner_id, 3);
    // An owner without a token of that name gets nothing, although the name
    // exists in the store.
    assert!(store.find_by_name(2, &"ci".to_string()).is_none());
}

#[test]
fn secret_lookup_is_scoped_to_the_owner() {
    let store = two_owner_store();
    let hit = store.find_by_secret(2, &"sk_xyz".to_string()).unwrap();
    assert_eq!(hit.name, "deploy");
    // Another identity's exact secret resolves to nothing.
    assert!(store.find_by_secret(2, &"sk_abc".to_string()).is_none());
    assert!(store.find_by_secret(1, &"sk_xyz".to_string()).is_none());
}

#[test]
fn keys_match_exactly_and_case_sensitively() {
    let store = two_owner_store();
    assert!(store.find_by_name(1, &"CI".to_string()).is_none());
    assert!(store.find_by_name(1, &"ci ".to_string()).is_none());
    assert!(store.find_by_secret(1, &"SK_ABC".to_string()).is_none());
}

#[test]
fn scoped_lookup_takes_either_key_kind() {
    let store = two_owner_store();
    let by_name = store
        .find_scoped(1, &LookupKey::ByName("ci".to_string()))
        .unwrap();
    let by_secret = store
        .find_scoped(1, &LookupKey::BySecret("sk_abc".to_string()))
        .unwrap();
    assert_eq!(by_name, by_secret);
}

#[test]
fn empty_store_answers_absent() {
    let store = TokenStore { records: vec![] };
    assert!(store.find_by_name(1, &"ci".to_string()).is_none());
    assert!(store.find_by_secret(1, &"sk_abc".to_string()).is_none());
}
