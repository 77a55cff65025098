use pshovr::client::MESSAGE_API_URL;
use pshovr::{Notification, Priority, PushoverClient};

fn pair(k: &str, v: &str) -> (String, String) {
    (k.to_string(), v.to_string())
}

#[test]
fn test_serialized_priorities_dtrt() {
    let client = PushoverClient::new("".into());
    let req = client
        .build_notification("richo", "test")
        .priority(Priority::HighPriority);
    assert!(
        req.form_fields().contains(&pair("priority", "1")),
        "Serialization failed"
    );
}

#[test]
fn test_setters_all_work() {
    let client = PushoverClient::new("".into());
    let notification = client.build_notification("richo", "this is a test_notification");
    let out = notification
        .title("test title".into())
        .url("http://butts.lol".into())
        .url_title("loool".into())
        .priority(Priority::HighPriority);
    assert_eq!(
        out.form_fields(),
        vec![
            pair("token", ""),
            pair("user", "richo"),
            pair("message", "this is a test_notification"),
            pair("title", "test title"),
            pair("url", "http://butts.lol"),
            pair("url_title", "loool"),
            pair("priority", "1"),
        ]
    );
}

#[test]
fn priority_wire_values() {
    assert_eq!(Priority::NoNotification.encode(), -2);
    assert_eq!(Priority::QuietNotification.encode(), -1);
    assert_eq!(Priority::HighPriority.encode(), 1);
    assert_eq!(Priority::RequireConfirmation.encode(), 2);
    assert_eq!(Priority::NoNotification.encode_text(), "-2");
    assert_eq!(Priority::QuietNotification.encode_text(), "-1");
    assert_eq!(Priority::HighPriority.encode_text(), "1");
    assert_eq!(Priority::RequireConfirmation.encode_text(), "2");
}

#[test]
fn priority_names() {
    assert_eq!(Priority::NoNotification.name(), "NoNotification");
    assert_eq!(Priority::RequireConfirmation.name(), "RequireConfirmation");
}

#[test]
fn bare_notification_has_only_required_fields() {
    let client = PushoverClient::new("secret".into());
    let n = client.build_notification("richo", "hi");
    let fields = n.form_fields();
    assert_eq!(
        fields,
        vec![pair("token", "secret"), pair("user", "richo"), pair("message", "hi")]
    );
    for (k, _) in fields.iter() {
        assert!(k != "title" && k != "url" && k != "url_title" && k != "priority");
    }
}

#[test]
fn setters_keep_the_last_value() {
    let client = PushoverClient::new("t".into());
    let n = client
        .build_notification("u", "m")
        .title("first".into())
        .title("second".into())
        .priority(Priority::NoNotification)
        .priority(Priority::QuietNotification);
    assert_eq!(
        n.form_fields(),
        vec![
            pair("token", "t"),
            pair("user", "u"),
            pair("message", "m"),
            pair("title", "second"),
            pair("priority", "-1"),
        ]
    );
}

#[test]
fn setters_in_any_order() {
    let client = PushoverClient::new("t".into());
    let a = client
        .build_notification("u", "m")
        .url_title("ut".into())
        .url("x".into());
    let b = client
        .build_notification("u", "m")
        .url("x".into())
        .url_title("ut".into());
    assert_eq!(a.form_fields(), b.form_fields());
    assert_eq!(a.form_fields()[3], pair("url", "x"));
    assert_eq!(a.form_fields()[4], pair("url_title", "ut"));
}

#[test]
fn notification_redacted_text() {
    let client = PushoverClient::new("s3cr3t-token".into());
    let n = client.build_notification("richo", "test");
    assert_eq!(
        n.redacted(),
        "Notification { token: \"\\\"...\\\"\", user: \"richo\", message: \"test\", \
         title: None, url: None, url_title: None, priority: None }"
    );
}

#[test]
fn notification_redacted_escapes_and_options() {
    let client = PushoverClient::new("s3cr3t-token".into());
    let n: Notification = client
        .build_notification("richo", "say \"hi\"\n")
        .title("T".into())
        .priority(Priority::HighPriority);
    let text = n.redacted();
    assert_eq!(
        text,
        "Notification { token: \"\\\"...\\\"\", user: \"richo\", message: \"say \\\"hi\\\"\\n\", \
         title: Some(\"T\"), url: None, url_title: None, priority: Some(HighPriority) }"
    );
    assert!(!text.contains("s3cr3t-token"));
}

#[test]
fn redacted_text_does_not_depend_on_token() {
    let a = PushoverClient::new("one-token".into());
    let b = PushoverClient::new("another-token".into());
    let na = a.build_notification("u", "m").url("http://x".into());
    let nb = b.build_notification("u", "m").url("http://x".into());
    assert_eq!(na.redacted(), nb.redacted());
    assert!(!na.redacted().contains("one-token"));
    assert_eq!(a.redacted(), b.redacted());
}

#[test]
fn client_redacted_text() {
    let client = PushoverClient::new("s3cr3t-token".into());
    let text = client.redacted();
    assert_eq!(text, "PushoverClient { token: \"\\\"...\\\"\", client: Client }");
    assert!(!text.contains("s3cr3t-token"));
}

#[test]
fn message_endpoint() {
    assert_eq!(MESSAGE_API_URL, "https://api.pushover.net/1/messages.json");
}
