use sharedroid::push::{PushError, PushMessage};
use std::collections::HashMap;

#[test]
fn push_error_texts() {
    assert_eq!(PushError::NotAvailable.to_string(), "Firebase não disponível");
    assert_eq!(PushError::NetworkError("timeout".to_string()).to_string(), "Erro de rede: timeout");
    assert_eq!(PushError::PermissionDenied.to_string(), "Permissão POST_NOTIFICATIONS negada");
}

#[test]
fn push_message_holds_data() {
    let mut data = HashMap::new();
    data.insert("k".to_string(), "v".to_string());
    let m = PushMessage { title: Some("t".into()), body: None, data, collapse_key: None, from: None };
    let c = m.clone();
    assert_eq!(c.data.get("k").map(|s| s.as_str()), Some("v"));
}
