use vstd::prelude::*;
use vstd::string::*;

verus! {

// The message-bus dispatch rule: which of the consumed topics leads to
// which action. The consumer loop itself, and the payload parsing, live in
// the shell around the core; only the rule is decided here.

/// What a consumed topic asks the billing core to do.
#[derive(Clone, Copy, Debug, PartialEq, Eq, Structural)]
pub enum TopicAction {
    /// A known topic this system deliberately does not bill yet.
    Ignored,
    /// The caller's domain announced a user; the core registers it.
    CreateUser,
    /// A topic this system does not know.
    Unmapped,
}

/// The action each topic maps to.
pub open spec fn topic_action_of(topic: Seq<char>) -> TopicAction {
    if topic == "USER_CREATED"@ {
        TopicAction::CreateUser
    } else if topic == "2FA_EMAIL_CREATED"@ || topic == "2FA_PHONE_CREATED"@ || topic
        == "2FA_EMAIL_SENT"@ || topic == "2FA_PHONE_SENT"@ || topic == "ORGANIZATION_CREATED"@ {
        TopicAction::Ignored
    } else {
        TopicAction::Unmapped
    }
}

/// Decides what a consumed topic asks for. Total over every topic string.
pub fn switch_case(topic: &str) -> (r: TopicAction)
    ensures
        r == topic_action_of(topic@),
{
    let x = String::from_str(topic);
    if x == String::from_str("USER_CREATED") {
        TopicAction::CreateUser
    } else if x == String::from_str("2FA_EMAIL_CREATED") || x == String::from_str(
        "2FA_PHONE_CREATED",
    ) || x == String::from_str("2FA_EMAIL_SENT") || x == String::from_str("2FA_PHONE_SENT") || x
        == String::from_str("ORGANIZATION_CREATED") {
        TopicAction::Ignored
    } else {
        TopicAction::Unmapped
    }
}

} // verus!
