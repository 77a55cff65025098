use vstd::prelude::*;

use crate::notification::{Notification, NotificationView};
use crate::redact::{marker, redaction_marker};

verus! {

#[verifier::external_type_specification]
#[verifier::external_body]
pub struct ExHttpClient(reqwest::blocking::Client);

#[verifier::external_type_specification]
#[verifier::external_body]
pub struct ExHttpResponse(reqwest::blocking::Response);

#[verifier::external_type_specification]
#[verifier::external_body]
pub struct ExHttpError(reqwest::Error);

/// Relies on `reqwest::blocking::Client::new`: builds a client with the
/// default settings and does no network I/O. It panics when no TLS backend
/// can be set up or when it runs inside an async runtime.
pub assume_specification[ reqwest::blocking::Client::new ]() -> reqwest::blocking::Client;

/// Relies on reqwest's blocking `Client::post`, `RequestBuilder::form` and
/// `RequestBuilder::send`: one POST to `url` whose body is `fields`,
/// form-encoded; the outcome depends on the network.
#[verifier::external_body]
fn post_form(client: &reqwest::blocking::Client, url: &str, fields: &Vec<(String, String)>) -> (r:
    Result<reqwest::blocking::Response, reqwest::Error>) {
    client.post(url).form(fields).send()
}

/// Relies on the `Debug` impl of `reqwest::blocking::Client`, which writes
/// an empty struct named `Client`.
#[verifier::external_body]
fn show_http_client(client: &reqwest::blocking::Client) -> (r: String)
    ensures
        r@ == "Client"@,
{
    format!("{:?}", client)
}

/// The endpoint that accepts messages.
pub const MESSAGE_API_URL: &'static str = "https://api.pushover.net/1/messages.json";

/// Why a notification could not be sent.
#[derive(Debug)]
pub enum SendError {
    /// The HTTP request itself failed.
    Http(reqwest::Error),
}

/// Maps the outcome of a request to the library's result.
pub fn send_outcome(outcome: Result<reqwest::blocking::Response, reqwest::Error>) -> (r: Result<
    reqwest::blocking::Response,
    SendError,
>)
    ensures
        outcome is Ok <==> r is Ok,
        r matches Ok(resp) ==> outcome == Ok::<reqwest::blocking::Response, reqwest::Error>(resp),
        r matches Err(SendError::Http(e)) ==> outcome == Err::<reqwest::blocking::Response, reqwest::Error>(e),
{
    match outcome {
        Ok(resp) => Ok(resp),
        Err(e) => Err(SendError::Http(e)),
    }
}

/// The diagnostic text of a client: its token masked, its HTTP client shown.
pub open spec fn client_text() -> Seq<char> {
    "PushoverClient { token: "@ + redaction_marker() + ", client: "@ + "Client"@ + " }"@
}

/// Holds the API token and one reusable HTTP client.
pub struct PushoverClient {
    token: String,
    client: reqwest::blocking::Client,
}

impl View for PushoverClient {
    type V = Seq<char>;

    /// The API token.
    closed spec fn view(&self) -> Seq<char> {
        self.token@
    }
}

impl PushoverClient {
    /// A client that sends with `token`; no request is made here.
    pub fn new(token: String) -> (r: PushoverClient)
        ensures
            r@ == token@,
    {
        let client = reqwest::blocking::Client::new();
        PushoverClient { token, client }
    }

    /// A notification to `user` with text `message`, carrying this client's
    /// token and no optional field.
    pub fn build_notification(&self, user: &str, message: &str) -> (r: Notification)
        ensures
            r@ == (NotificationView {
                token: self@,
                user: user@,
                message: message@,
                title: None,
                url: None,
                url_title: None,
                priority: None,
            }),
    {
        Notification::from_parts(self.token.clone(), String::from_str(user), String::from_str(message))
    }

    /// Posts the fields of `notification` as one form to the message
    /// endpoint and hands back the response, whatever its status, or the
    /// transport failure.
    pub fn send(&self, notification: &Notification) -> (r: Result<reqwest::blocking::Response, SendError>)
        ensures
            r matches Err(e) ==> e is Http,
    {
        let fields = notification.form_fields();
        send_outcome(post_form(&self.client, MESSAGE_API_URL, &fields))
    }

    /// The diagnostic text of this client, with the token masked.
    pub fn redacted(&self) -> (r: String)
        ensures
            r@ == client_text(),
    {
        let mut r = String::from_str("PushoverClient { token: ");
        let m = marker();
        r.append(m.as_str());
        r.append(", client: ");
        let c = show_http_client(&self.client);
        r.append(c.as_str());
        r.append(" }");
        r
    }
}

} // verus!
