//! The Uptime Kuma notification filter: drops roll-up messages about child
//! monitors and replaces the rest with a terse `'<service>' is now up|down`.

use vstd::prelude::*;
use crate::text::contains_text;
use crate::text::occurs_in;

verus! {

/// A notification as Uptime Kuma's generic webhook sends it.
pub struct UptimeMessage {
    /// Name of the service
    pub service: String,
    /// How the service is doing
    pub status: String,
    /// Contents of the message
    pub message: String,
}

/// The notice forwarded for a message, if any: none for a message that
/// mentions `children`; otherwise the service's name in single quotes and
/// `down` when its status mentions `Down`, `up` when it does not.
pub open spec fn admin_notice(m: UptimeMessage) -> Option<Seq<char>> {
    if occurs_in(m.message@, "children"@) {
        None
    } else {
        Some(
            "'"@ + m.service@ + "' is now "@ + (if occurs_in(m.status@, "Down"@) {
                "down"@
            } else {
                "up"@
            }),
        )
    }
}

/// Decides what the administrator is told about `message`: `None` to
/// ignore it, or the text of the notice to send.
pub fn notify_admin(message: &UptimeMessage) -> (notice: Option<String>)
    ensures
        notice is Some <==> admin_notice(*message) is Some,
        notice matches Some(n) ==> admin_notice(*message) == Some(n@),
{
    if contains_text(message.message.as_str(), "children") {
        return None;
    }
    let status = if contains_text(message.status.as_str(), "Down") {
        "down"
    } else {
        "up"
    };
    let mut notice = String::from_str("'");
    notice.append(message.service.as_str());
    notice.append("' is now ");
    notice.append(status);
    Some(notice)
}

/// A message is forwarded exactly when it does not mention `children`, and
/// the notice says `down` exactly when the status mentions `Down`.
pub proof fn lemma_notice_rules(m: UptimeMessage)
    ensures
        admin_notice(m) is None <==> occurs_in(m.message@, "children"@),
        admin_notice(m) matches Some(n) ==> {
            let tail = if occurs_in(m.status@, "Down"@) {
                "down"@
            } else {
                "up"@
            };
            &&& n.subrange(n.len() - tail.len(), n.len() as int) == tail
            &&& n.subrange(1, 1 + m.service@.len() as int) == m.service@
        },
{
    if let Some(n) = admin_notice(m) {
        let tail = if occurs_in(m.status@, "Down"@) {
            "down"@
        } else {
            "up"@
        };
        assert(n.subrange(n.len() - tail.len(), n.len() as int) =~= tail);
        reveal_strlit("'");
        assert(n.subrange(1, 1 + m.service@.len() as int) =~= m.service@);
    }
}

/// A message that does not mention `children` is forwarded as the service
/// name in single quotes, then ` is now `, then `down` when its status
/// mentions `Down` and `up` otherwise.
pub proof fn lemma_notice_text(m: UptimeMessage)
    requires
        !occurs_in(m.message@, "children"@),
    ensures
        admin_notice(m) == Some(
            "'"@ + m.service@ + "' is now "@ + (if occurs_in(m.status@, "Down"@) {
                "down"@
            } else {
                "up"@
            }),
        ),
{
}

/// The notice depends on the message body only through the `children`
/// test: two messages about the same service with the same status, neither
/// mentioning `children`, get the same notice, whatever else their bodies say.
pub proof fn lemma_notice_ignores_message_body(a: UptimeMessage, b: UptimeMessage)
    requires
        a.service@ == b.service@,
        a.status@ == b.status@,
        !occurs_in(a.message@, "children"@),
        !occurs_in(b.message@, "children"@),
    ensures
        admin_notice(a) is Some,
        admin_notice(a) == admin_notice(b),
{
}

} // verus!
