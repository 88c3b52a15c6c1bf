use air_controller::commands::{rollback_request, rollback_token, secure_store};
use air_controller::secure_store::{KeychainOutcome, KeychainRequest, SecureStore};

fn entry_of(request: &KeychainRequest) -> (&str, &str) {
    match request {
        KeychainRequest::Store { service, account, .. }
        | KeychainRequest::Read { service, account }
        | KeychainRequest::Delete { service, account } => (service.as_str(), account.as_str()),
    }
}

#[test]
fn requests_address_the_token_entry() {
    let store = SecureStore::new();
    let entry = ("air-controller", "home-assistant-token");
    match store.store_request("  tok en ") {
        KeychainRequest::Store { service, account, password } => {
            assert_eq!((service.as_str(), account.as_str()), entry);
            assert_eq!(password, "  tok en ");
        }
        _ => panic!("a store request was expected"),
    }
    let read = store.read_request();
    assert!(matches!(read, KeychainRequest::Read { .. }));
    assert_eq!(entry_of(&read), entry);
    let delete = store.delete_request();
    assert!(matches!(delete, KeychainRequest::Delete { .. }));
    assert_eq!(entry_of(&delete), entry);
}

#[test]
fn saving_reports_each_answer() {
    let store = SecureStore::new();
    let saved = store.save_token(KeychainOutcome::Done(()));
    assert!(saved.success);
    assert_eq!(saved.message, "Token 已保存到系统密钥链。");
    assert_eq!(saved.data, Some(true));
    let refused = store.save_token(KeychainOutcome::Failed("locked".to_string()));
    assert!(!refused.success);
    assert_eq!(refused.message, "保存 Token 失败: locked");
    assert!(refused.data.is_none());
    let closed = store.save_token(KeychainOutcome::EntryUnavailable("no backend".to_string()));
    assert_eq!(closed.message, "初始化密钥链失败: no backend");
    assert!(closed.data.is_none());
}

#[test]
fn deleting_reports_each_answer() {
    let store = SecureStore::new();
    let deleted = store.delete_token(KeychainOutcome::Done(()));
    assert!(deleted.success);
    assert_eq!(deleted.message, "Token 已从系统密钥链删除。");
    assert_eq!(deleted.data, Some(true));
    let missing = store.delete_token(KeychainOutcome::Failed("No matching entry".to_string()));
    assert_eq!(missing.message, "删除 Token 失败: No matching entry");
    assert!(missing.data.is_none());
    let closed = store.delete_token(KeychainOutcome::EntryUnavailable("x".to_string()));
    assert_eq!(closed.message, "初始化密钥链失败: x");
}

#[test]
fn loading_gives_back_what_was_read() {
    let store = SecureStore::new();
    assert_eq!(store.load_token_value(KeychainOutcome::Done(" tok ".to_string())), Ok(" tok ".to_string()));
    assert_eq!(
        store.load_token_value(KeychainOutcome::Failed("No matching entry".to_string())),
        Err("读取 Token 失败: No matching entry".to_string())
    );
    assert_eq!(
        store.load_token_value(KeychainOutcome::EntryUnavailable("no backend".to_string())),
        Err("初始化密钥链失败: no backend".to_string())
    );
}

#[test]
fn presence_needs_a_non_blank_token() {
    let store = SecureStore::new();
    let present = store.has_token(KeychainOutcome::Done("tok".to_string()));
    assert!(present.success);
    assert_eq!(present.message, "Token 状态已读取。");
    assert_eq!(present.data, Some(true));
    assert_eq!(store.has_token(KeychainOutcome::Done(" \t".to_string())).data, Some(false));
    let missing = store.has_token(KeychainOutcome::Failed("No matching entry".to_string()));
    assert!(!missing.success);
    assert_eq!(missing.message, "读取 Token 失败: No matching entry");
}

#[test]
fn rollback_stores_the_earlier_token_or_removes_it() {
    let store = secure_store();
    match rollback_request(&store, &Some("old".to_string())) {
        KeychainRequest::Store { password, .. } => assert_eq!(password, "old"),
        _ => panic!("a store request was expected"),
    }
    assert!(matches!(rollback_request(&store, &None), KeychainRequest::Delete { .. }));

    assert_eq!(rollback_token(&store, Some("old".to_string()), KeychainOutcome::Done(())), Ok(()));
    assert_eq!(rollback_token(&store, None, KeychainOutcome::Done(())), Ok(()));
    assert_eq!(
        rollback_token(&store, Some("old".to_string()), KeychainOutcome::Failed("locked".to_string())),
        Err("保存 Token 失败: locked".to_string())
    );
    assert_eq!(
        rollback_token(&store, None, KeychainOutcome::Failed("gone".to_string())),
        Err("删除 Token 失败: gone".to_string())
    );
    assert_eq!(
        rollback_token(&store, None, KeychainOutcome::EntryUnavailable("x".to_string())),
        Err("初始化密钥链失败: x".to_string())
    );
}
