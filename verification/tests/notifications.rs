use sharedroid::notifications::{
    priority_to_importance, Action, Channel, NoActionHandler, Notification, NotificationRequest, Priority,
};

#[test]
fn importance_constants() {
    assert_eq!(priority_to_importance(Priority::Min), 1);
    assert_eq!(priority_to_importance(Priority::Low), 2);
    assert_eq!(priority_to_importance(Priority::Default), 3);
    assert_eq!(priority_to_importance(Priority::High), 4);
    assert_eq!(priority_to_importance(Priority::Max), 5);
}

#[test]
fn channel_defaults_to_default_importance() {
    assert_eq!(
        Channel::new("alerts", "App alerts").register(),
        NotificationRequest::CreateChannel {
            channel_id: "alerts".to_string(),
            name: "App alerts".to_string(),
            importance: 3,
        }
    );
}

#[test]
fn channel_importance_is_kept() {
    assert_eq!(
        Channel::new("alerts", "App alerts").importance(Priority::High).register(),
        NotificationRequest::CreateChannel {
            channel_id: "alerts".to_string(),
            name: "App alerts".to_string(),
            importance: 4,
        }
    );
}

#[test]
fn show_passes_everything_and_the_handler() {
    let (r, handler) = Notification::new("alerts")
        .title("Hello!")
        .body("Test message")
        .action(Action::new("ok", "OK"))
        .action(Action::new("later", "Later"))
        .progress(65, 100)
        .ongoing(true)
        .on_action(|id: String| async move { assert!(!id.is_empty()) })
        .show(7);
    let _ = (handler.handler)("ok".to_string());
    assert_eq!(
        r,
        NotificationRequest::Notify {
            id: 7,
            channel_id: "alerts".to_string(),
            title: Some("Hello!".to_string()),
            body: Some("Test message".to_string()),
            progress: Some((100, 65)),
            ongoing: true,
            actions: vec![Action::new("ok", "OK"), Action::new("later", "Later")],
        }
    );
}

#[test]
fn bare_notification() {
    assert_eq!(
        Notification::new("c").show(1),
        (
            NotificationRequest::Notify {
                id: 1,
                channel_id: "c".to_string(),
                title: None,
                body: None,
                progress: None,
                ongoing: false,
                actions: vec![],
            },
            NoActionHandler
        )
    );
}

#[test]
fn large_ids_wrap_like_the_platform_int() {
    assert_eq!(Notification::cancel(u32::MAX), NotificationRequest::Cancel { id: -1 });
    assert_eq!(Notification::cancel(3), NotificationRequest::Cancel { id: 3 });
}

#[test]
fn action_keeps_id_and_label() {
    let a = Action::new("ok", "OK");
    assert_eq!(a.id, "ok");
    assert_eq!(a.label, "OK");
}

#[test]
fn importance_grows_with_priority() {
    let order = [Priority::Min, Priority::Low, Priority::Default, Priority::High, Priority::Max];
    for w in order.windows(2) {
        assert!(priority_to_importance(w[0]) < priority_to_importance(w[1]));
    }
}
