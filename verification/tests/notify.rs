use imap_notify::dbus_notify::{
    notify_error, NotificationRequest, NotifyCall, APPLICATION, CALL_TIMEOUT_MS, CATEGORY,
    CATEGORY_HINT, EXPIRE_TIMEOUT_MS, ICON, NOTIFICATIONS_PATH, NOTIFICATIONS_SERVICE,
    NOTIFY_METHOD, NO_CONNECTION, UNNAMED_ERROR,
};
use imap_notify::summary::MessageSummary;

#[test]
fn service_constants() {
    assert_eq!(APPLICATION, "imap-notify");
    assert_eq!(ICON, "\u{1F4EB}");
    assert_eq!(NOTIFICATIONS_SERVICE, "org.freedesktop.Notifications");
    assert_eq!(NOTIFICATIONS_PATH, "/org/freedesktop/Notifications");
    assert_eq!(NOTIFY_METHOD, "Notify");
    assert_eq!(CATEGORY_HINT, "category");
    assert_eq!(CATEGORY, "email.arrived");
    assert_eq!(EXPIRE_TIMEOUT_MS, 10000);
    assert_eq!(CALL_TIMEOUT_MS, 2000);
    assert_eq!(NO_CONNECTION, "cannot create a new connection");
    assert_eq!(UNNAMED_ERROR, "Error while calling Notify on org.freedesktop.Notifications");
}

#[test]
fn notification_names_mailbox_and_count() {
    let summary = MessageSummary::single("Hello".to_string());
    let request = NotificationRequest::unseen("INBOX", 1, &summary);
    assert_eq!(request.application, "imap-notify");
    assert_eq!(request.title, "\u{1F4EB} INBOX (1)");
    assert_eq!(request.body, "Hello");
}

#[test]
fn notification_title_for_larger_counts() {
    let summary = MessageSummary::single("x".to_string());
    assert_eq!(NotificationRequest::unseen("Lists/rust", 120, &summary).title, "\u{1F4EB} Lists/rust (120)");
    assert_eq!(NotificationRequest::unseen("", 0, &summary).title, "\u{1F4EB}  (0)");
}

#[test]
fn notification_shows_the_first_subject() {
    let summary = MessageSummary::single("first".to_string()).with("second".to_string());
    assert_eq!(NotificationRequest::unseen("INBOX", 2, &summary).body, "first");
}

#[test]
fn notification_can_be_copied() {
    let summary = MessageSummary::single("Hello".to_string());
    let request = NotificationRequest::unseen("INBOX", 1, &summary);
    assert_eq!(request.clone(), request);
}

#[test]
fn call_carries_the_notification() {
    let request = NotificationRequest {
        application: "imap-notify".to_string(),
        title: "\u{1F4EB} INBOX (2)".to_string(),
        body: "unread 2".to_string(),
    };
    assert_eq!(
        request.into_call(),
        NotifyCall {
            app_name: "imap-notify".to_string(),
            replaces_id: 0,
            app_icon: String::new(),
            summary: "\u{1F4EB} INBOX (2)".to_string(),
            body: "unread 2".to_string(),
            actions: Vec::new(),
            category: "email.arrived".to_string(),
            expire_timeout: 10000,
        }
    );
}

#[test]
fn error_with_name_and_message() {
    assert_eq!(
        notify_error(Some("org.freedesktop.DBus.Error.ServiceUnknown"), Some("no such service")),
        "org.freedesktop.DBus.Error.ServiceUnknown no such service"
    );
}

#[test]
fn error_without_name() {
    assert_eq!(
        notify_error(None, Some("no such service")),
        "Error while calling Notify on org.freedesktop.Notifications no such service"
    );
}

#[test]
fn error_without_message() {
    assert_eq!(notify_error(Some("org.example.Error"), None), "org.example.Error ");
}

#[test]
fn error_without_anything() {
    assert_eq!(notify_error(None, None), "Error while calling Notify on org.freedesktop.Notifications ");
}
