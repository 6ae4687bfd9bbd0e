//! The webhook relay: status-page webhooks that it recognises are pushed on
//! to their Uptime Kuma push monitor; anything else is kept in the ledger.

use vstd::prelude::*;
use crate::clock::Timestamp;
use crate::text::status_body;
use crate::text::status_json;

verus! {

/// A JSON document, carried through unread.
#[verifier::external_type_specification]
#[verifier::external_body]
pub struct ExJsonValue(serde_json::Value);

/// A GitHub status-page webhook.
pub enum StatusUpdate {
    Component { component_update: serde_json::Value, component: serde_json::Value },
    Incident { incident: serde_json::Value },
}

/// The newer shape of a GitHub status-page incident update. No decoder
/// exists for it yet: the relay does not accept it.
pub enum StatusUpdateV2 {
    Incident {
        body: String,
        created_at: Timestamp,
        display_at: Timestamp,
        status: String,
        updated_ad: Timestamp,
        id: String,
        incident_id: String,
    },
}

/// A webhook that the relay recognises.
pub enum WebhookMessage {
    GitHub(StatusUpdate),
    Anthropic { name: String },
}

/// The push token of the Uptime Kuma monitor for a message's source.
pub open spec fn push_token(message: WebhookMessage) -> Seq<char> {
    match message {
        WebhookMessage::Anthropic { .. } => "bpGTDTavMpcJEisPbEZHCaurG6npYk89"@,
        WebhookMessage::GitHub(..) => "iyelFv2JY1BvGdCXCxVxFU0K3WaTuL7X"@,
    }
}

/// The address of the Uptime Kuma instance.
pub open spec fn uptime_kuma_address() -> Seq<char> {
    "192.168.1.120:3001"@
}

/// The push URL that reports a message's source as up.
pub open spec fn push_url_text(message: WebhookMessage) -> Seq<char> {
    "http://"@ + uptime_kuma_address() + "/api/push/"@ + push_token(message)
        + "?status=up&msg=OK&ping="@
}

/// What the relay does with an incoming payload.
pub enum Ingest {
    /// Push the recognised message to this Uptime Kuma URL.
    Notify { url: String, message: WebhookMessage },
    /// Keep the unrecognised payload in the ledger.
    Record,
}

impl WebhookMessage {
    /// The push token of the Uptime Kuma monitor for this message's source.
    pub fn endpoint(&self) -> (token: &'static str)
        ensures
            token@ == push_token(*self),
    {
        match self {
            WebhookMessage::Anthropic { .. } => "bpGTDTavMpcJEisPbEZHCaurG6npYk89",
            WebhookMessage::GitHub { .. } => "iyelFv2JY1BvGdCXCxVxFU0K3WaTuL7X",
        }
    }

    /// The URL that tells Uptime Kuma this message's source is up.
    pub fn push_url(&self) -> (url: String)
        ensures
            url@ == push_url_text(*self),
    {
        let mut url = String::from_str("http://");
        url.append("192.168.1.120:3001");
        url.append("/api/push/");
        url.append(self.endpoint());
        url.append("?status=up&msg=OK&ping=");
        url
    }
}

/// Decides what becomes of a payload: a recognised message is pushed to its
/// monitor; a payload that is not one is recorded.
pub fn ingest(message: Option<WebhookMessage>) -> (action: Ingest)
    ensures
        match (message, action) {
            (Some(m), Ingest::Notify { url, message: sent }) => sent == m && url@
                == push_url_text(m),
            (None, Ingest::Record) => true,
            _ => false,
        },
{
    match message {
        Some(m) => {
            let url = m.push_url();
            Ingest::Notify { url, message: m }
        },
        None => Ingest::Record,
    }
}

/// The health text: `OK` when the ledger can be opened.
pub open spec fn health_text(ledger_reachable: bool) -> Seq<char> {
    if ledger_reachable {
        "OK"@
    } else {
        "Ledger cannot be accessed"@
    }
}

/// The JSON body of the health endpoint.
pub fn health(ledger_reachable: bool) -> (body: String)
    ensures
        body@ == status_json(health_text(ledger_reachable)),
{
    if ledger_reachable {
        status_body("OK")
    } else {
        status_body("Ledger cannot be accessed")
    }
}

/// Each source reports to its own push monitor.
pub proof fn lemma_sources_have_distinct_monitors(github: WebhookMessage, anthropic: WebhookMessage)
    requires
        github is GitHub,
        anthropic is Anthropic,
    ensures
        push_token(github) != push_token(anthropic),
{
    reveal_strlit("bpGTDTavMpcJEisPbEZHCaurG6npYk89");
    reveal_strlit("iyelFv2JY1BvGdCXCxVxFU0K3WaTuL7X");
    assert(push_token(github)[0] != push_token(anthropic)[0]);
}

/// Every push reports its source up: the URL is Uptime Kuma's push endpoint
/// at 192.168.1.120:3001, the source's token, and the fixed query
/// `?status=up&msg=OK&ping=`, whatever the message holds.
pub proof fn lemma_push_url_reports_up(m: WebhookMessage)
    ensures
        push_url_text(m) == "http://192.168.1.120:3001/api/push/"@ + push_token(m)
            + "?status=up&msg=OK&ping="@,
        m is GitHub ==> push_url_text(m)
            == "http://192.168.1.120:3001/api/push/iyelFv2JY1BvGdCXCxVxFU0K3WaTuL7X?status=up&msg=OK&ping="@,
        m is Anthropic ==> push_url_text(m)
            == "http://192.168.1.120:3001/api/push/bpGTDTavMpcJEisPbEZHCaurG6npYk89?status=up&msg=OK&ping="@,
{
    reveal_strlit("http://");
    reveal_strlit("192.168.1.120:3001");
    reveal_strlit("/api/push/");
    reveal_strlit("http://192.168.1.120:3001/api/push/");
    reveal_strlit("?status=up&msg=OK&ping=");
    reveal_strlit("bpGTDTavMpcJEisPbEZHCaurG6npYk89");
    reveal_strlit("iyelFv2JY1BvGdCXCxVxFU0K3WaTuL7X");
    reveal_strlit(
        "http://192.168.1.120:3001/api/push/iyelFv2JY1BvGdCXCxVxFU0K3WaTuL7X?status=up&msg=OK&ping=",
    );
    reveal_strlit(
        "http://192.168.1.120:3001/api/push/bpGTDTavMpcJEisPbEZHCaurG6npYk89?status=up&msg=OK&ping=",
    );
    assert(push_url_text(m) =~= "http://192.168.1.120:3001/api/push/"@ + push_token(m)
        + "?status=up&msg=OK&ping="@);
    if m is GitHub {
        assert(push_url_text(m)
            =~= "http://192.168.1.120:3001/api/push/iyelFv2JY1BvGdCXCxVxFU0K3WaTuL7X?status=up&msg=OK&ping="@);
    } else {
        assert(push_url_text(m)
            =~= "http://192.168.1.120:3001/api/push/bpGTDTavMpcJEisPbEZHCaurG6npYk89?status=up&msg=OK&ping="@);
    }
}

/// Messages from the same source are pushed to the same URL, whatever
/// they hold.
pub proof fn lemma_same_source_same_url(a: WebhookMessage, b: WebhookMessage)
    requires
        (a is GitHub) == (b is GitHub),
    ensures
        push_url_text(a) == push_url_text(b),
{
}

} // verus!
