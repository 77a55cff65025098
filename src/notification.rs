use vstd::prelude::*;

use crate::payload::opt_text;
use crate::priority::{variant_name, wire_text, Priority};
use crate::redact::{debug_quoted, marker, occurs_in, opt_debug, quoted, redaction_marker, show_opt};

verus! {

/// The contents of a notification, as plain text values.
pub struct NotificationView {
    pub token: Seq<char>,
    pub user: Seq<char>,
    pub message: Seq<char>,
    pub title: Option<Seq<char>>,
    pub url: Option<Seq<char>>,
    pub url_title: Option<Seq<char>>,
    pub priority: Option<Priority>,
}

impl NotificationView {
    /// The same contents with the title replaced.
    pub open spec fn with_title(self, title: Seq<char>) -> NotificationView {
        NotificationView { title: Some(title), ..self }
    }

    /// The same contents with the URL replaced.
    pub open spec fn with_url(self, url: Seq<char>) -> NotificationView {
        NotificationView { url: Some(url), ..self }
    }

    /// The same contents with the URL title replaced.
    pub open spec fn with_url_title(self, url_title: Seq<char>) -> NotificationView {
        NotificationView { url_title: Some(url_title), ..self }
    }

    /// The same contents with the priority replaced.
    pub open spec fn with_priority(self, priority: Priority) -> NotificationView {
        NotificationView { priority: Some(priority), ..self }
    }

    /// The same contents with the token replaced.
    pub open spec fn with_token(self, token: Seq<char>) -> NotificationView {
        NotificationView { token, ..self }
    }

    /// None of the optional fields is set.
    pub open spec fn is_bare(self) -> bool {
        &&& self.title is None
        &&& self.url is None
        &&& self.url_title is None
        &&& self.priority is None
    }
}

/// One outgoing message: credentials, recipient and text, and the optional
/// fields that were set on it.
pub struct Notification {
    token: String,
    user: String,
    message: String,
    title: Option<String>,
    url: Option<String>,
    url_title: Option<String>,
    priority: Option<Priority>,
}

impl View for Notification {
    type V = NotificationView;

    closed spec fn view(&self) -> NotificationView {
        NotificationView {
            token: self.token@,
            user: self.user@,
            message: self.message@,
            title: opt_text(self.title),
            url: opt_text(self.url),
            url_title: opt_text(self.url_title),
            priority: self.priority,
        }
    }
}

/// A form entry for `key` when `value` is present, none otherwise.
pub open spec fn optional_entry(key: Seq<char>, value: Option<Seq<char>>) -> Seq<(Seq<char>, Seq<char>)> {
    match value {
        Some(v) => seq![(key, v)],
        None => Seq::empty(),
    }
}

/// The wire text of an optional priority.
pub open spec fn priority_entry_value(p: Option<Priority>) -> Option<Seq<char>> {
    match p {
        Some(p) => Some(wire_text(p)),
        None => None,
    }
}

/// The key/value pairs of the request body, in order: the three required
/// fields, then each optional field that is present.
pub open spec fn form_pairs(n: NotificationView) -> Seq<(Seq<char>, Seq<char>)> {
    seq![("token"@, n.token), ("user"@, n.user), ("message"@, n.message)]
        + optional_entry("title"@, n.title)
        + optional_entry("url"@, n.url)
        + optional_entry("url_title"@, n.url_title)
        + optional_entry("priority"@, priority_entry_value(n.priority))
}

/// The text of each key/value pair.
pub open spec fn pair_texts(pairs: Seq<(String, String)>) -> Seq<(Seq<char>, Seq<char>)> {
    pairs.map_values(|p: (String, String)| (p.0@, p.1@))
}

/// How an optional priority is shown: `Some(..)` around the variant's name, or `None`.
pub open spec fn priority_debug(p: Option<Priority>) -> Seq<char> {
    match p {
        Some(p) => "Some("@ + variant_name(p) + ")"@,
        None => "None"@,
    }
}

/// The diagnostic text of a notification: every field by name, the token
/// replaced by the redaction marker.
pub open spec fn notification_text(n: NotificationView) -> Seq<char> {
    "Notification { token: "@ + redaction_marker() + ", user: "@ + debug_quoted(n.user)
        + ", message: "@ + debug_quoted(n.message) + ", title: "@ + opt_debug(n.title)
        + ", url: "@ + opt_debug(n.url) + ", url_title: "@ + opt_debug(n.url_title)
        + ", priority: "@ + priority_debug(n.priority) + " }"@
}

/// Two notifications that differ in their token alone are shown alike.
pub proof fn lemma_text_ignores_token(n: NotificationView, token: Seq<char>)
    ensures
        notification_text(n.with_token(token)) == notification_text(n),
{
}

/// A token that does not occur in what is shown of the other fields does not
/// occur in the diagnostic text, whatever else is set.
pub proof fn lemma_token_not_shown(n: NotificationView)
    requires
        !occurs_in(n.token, notification_text(n.with_token(Seq::empty()))),
    ensures
        !occurs_in(n.token, notification_text(n)),
{
    lemma_text_ignores_token(n, Seq::empty());
    assert(n.with_token(Seq::empty()).with_token(n.token) == n);
}

/// A notification with no optional field set sends no entry for any of them.
pub proof fn lemma_bare_form_has_no_optional_keys(n: NotificationView)
    requires
        n.is_bare(),
    ensures
        form_pairs(n) == seq![("token"@, n.token), ("user"@, n.user), ("message"@, n.message)],
        forall|i: int|
            0 <= i < form_pairs(n).len() ==> {
                let k = #[trigger] form_pairs(n)[i].0;
                &&& k != "title"@
                &&& k != "url"@
                &&& k != "url_title"@
                &&& k != "priority"@
            },
{
    reveal_strlit("token");
    reveal_strlit("user");
    reveal_strlit("message");
    reveal_strlit("title");
    reveal_strlit("url");
    reveal_strlit("url_title");
    reveal_strlit("priority");
    let f = form_pairs(n);
    assert(f =~= seq![("token"@, n.token), ("user"@, n.user), ("message"@, n.message)]);
    assert forall|i: int| 0 <= i < f.len() implies {
        let k = #[trigger] f[i].0;
        &&& k != "title"@
        &&& k != "url"@
        &&& k != "url_title"@
        &&& k != "priority"@
    } by {
        assert("token"@[1] != "title"@[1] && "token"@[0] != "url"@[0]);
        assert("token"@[0] != "url_title"@[0] && "token"@[0] != "priority"@[0]);
        assert("user"@[1] != "url"@[1] && "user"@[1] != "url_title"@[1]);
        assert("user"@[0] != "title"@[0] && "user"@[0] != "priority"@[0]);
        assert("message"@[0] != "title"@[0] && "message"@[0] != "url"@[0]);
        assert("message"@[0] != "url_title"@[0] && "message"@[0] != "priority"@[0]);
    }
}

/// A priority that is set is sent as the last form entry, under `priority`,
/// with its wire value as decimal text.
pub proof fn lemma_priority_sent_as_wire_text(n: NotificationView, p: Priority)
    ensures
        form_pairs(n.with_priority(p)).last() == ("priority"@, wire_text(p)),
{
}

/// Setting an optional field a second time keeps only the second value.
pub proof fn lemma_setters_overwrite(n: NotificationView, a: Seq<char>, b: Seq<char>, p: Priority, q: Priority)
    ensures
        n.with_title(a).with_title(b) == n.with_title(b),
        n.with_url(a).with_url(b) == n.with_url(b),
        n.with_url_title(a).with_url_title(b) == n.with_url_title(b),
        n.with_priority(p).with_priority(q) == n.with_priority(q),
{
}

/// Setters on different fields may be applied in either order.
pub proof fn lemma_setters_commute(n: NotificationView, a: Seq<char>, b: Seq<char>, p: Priority)
    ensures
        n.with_title(a).with_url(b) == n.with_url(b).with_title(a),
        n.with_title(a).with_url_title(b) == n.with_url_title(b).with_title(a),
        n.with_url(a).with_url_title(b) == n.with_url_title(b).with_url(a),
        n.with_title(a).with_priority(p) == n.with_priority(p).with_title(a),
        n.with_url(a).with_priority(p) == n.with_priority(p).with_url(a),
        n.with_url_title(a).with_priority(p) == n.with_priority(p).with_url_title(a),
{
}

impl Notification {
    /// A notification with the required fields and no optional one.
    pub(crate) fn from_parts(token: String, user: String, message: String) -> (r: Notification)
        ensures
            r@ == (NotificationView {
                token: token@,
                user: user@,
                message: message@,
                title: None,
                url: None,
                url_title: None,
                priority: None,
            }),
    {
        Notification { token, user, message, title: None, url: None, url_title: None, priority: None }
    }

    /// Your message's title, otherwise your app's name is used.
    pub fn title(self, title: String) -> (r: Notification)
        ensures
            r@ == self@.with_title(title@),
    {
        Notification { title: Some(title), ..self }
    }

    /// A supplementary URL to show with your message.
    pub fn url(self, url: String) -> (r: Notification)
        ensures
            r@ == self@.with_url(url@),
    {
        Notification { url: Some(url), ..self }
    }

    /// A title for your supplementary URL, otherwise just the URL is shown.
    pub fn url_title(self, url_title: String) -> (r: Notification)
        ensures
            r@ == self@.with_url_title(url_title@),
    {
        Notification { url_title: Some(url_title), ..self }
    }

    /// The notification priority for this message.
    pub fn priority(self, priority: Priority) -> (r: Notification)
        ensures
            r@ == self@.with_priority(priority),
    {
        Notification { priority: Some(priority), ..self }
    }

    /// The fields to send, as form key/value pairs; absent optional fields
    /// have no entry at all.
    pub fn form_fields(&self) -> (r: Vec<(String, String)>)
        ensures
            pair_texts(r@) == form_pairs(self@),
    {
        proof {
            reveal_strlit("token");
            reveal_strlit("user");
            reveal_strlit("message");
            reveal_strlit("title");
            reveal_strlit("url");
            reveal_strlit("url_title");
            reveal_strlit("priority");
        }
        let mut r: Vec<(String, String)> = Vec::new();
        r.push((String::from_str("token"), self.token.clone()));
        r.push((String::from_str("user"), self.user.clone()));
        r.push((String::from_str("message"), self.message.clone()));
        let ghost base = pair_texts(r@);
        assert(base =~= seq![("token"@, self@.token), ("user"@, self@.user), ("message"@, self@.message)]);
        match &self.title {
            Some(t) => r.push((String::from_str("title"), t.clone())),
            None => {},
        }
        let ghost with_title = pair_texts(r@);
        assert(with_title =~= base + optional_entry("title"@, self@.title));
        match &self.url {
            Some(u) => r.push((String::from_str("url"), u.clone())),
            None => {},
        }
        let ghost with_url = pair_texts(r@);
        assert(with_url =~= with_title + optional_entry("url"@, self@.url));
        match &self.url_title {
            Some(u) => r.push((String::from_str("url_title"), u.clone())),
            None => {},
        }
        let ghost with_url_title = pair_texts(r@);
        assert(with_url_title =~= with_url + optional_entry("url_title"@, self@.url_title));
        match &self.priority {
            Some(p) => r.push((String::from_str("priority"), p.encode_text())),
            None => {},
        }
        assert(pair_texts(r@) =~= with_url_title + optional_entry(
            "priority"@,
            priority_entry_value(self@.priority),
        ));
        r
    }
    /// The diagnostic text of this notification, with the token masked.
    pub fn redacted(&self) -> (r: String)
        ensures
            r@ == notification_text(self@),
    {
        let mut r = String::from_str("Notification { token: ");
        let m = marker();
        r.append(m.as_str());
        r.append(", user: ");
        let user = quoted(self.user.as_str());
        r.append(user.as_str());
        r.append(", message: ");
        let message = quoted(self.message.as_str());
        r.append(message.as_str());
        r.append(", title: ");
        let title = show_opt(&self.title);
        r.append(title.as_str());
        r.append(", url: ");
        let url = show_opt(&self.url);
        r.append(url.as_str());
        r.append(", url_title: ");
        let url_title = show_opt(&self.url_title);
        r.append(url_title.as_str());
        r.append(", priority: ");
        let priority = match &self.priority {
            Some(p) => {
                let mut s = String::from_str("Some(");
                let name = p.name();
                s.append(name.as_str());
                s.append(")");
                s
            },
            None => String::from_str("None"),
        };
        r.append(priority.as_str());
        r.append(" }");
        r
    }
}

} // verus!
