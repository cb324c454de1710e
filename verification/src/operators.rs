//! Who may run privileged actions, and from where.

use vstd::prelude::*;
use crate::config_view::{lists, lists_text};
use crate::target::{is_shared_channel_target, opt_str, ChannelReplyTarget};
use crate::text;
use crate::text::{blank, trimmed};

verus! {

/// Privilege level of a channel sender.
#[derive(Debug, Clone, Copy, PartialEq, Eq, Structural)]
pub enum ChannelSenderRole {
    Guest,
    Operator,
}

impl ChannelSenderRole {
    /// Whether the sender may run privileged actions.
    pub fn is_operator(self) -> (r: bool)
        ensures
            r == (self == ChannelSenderRole::Operator),
    {
        match self {
            ChannelSenderRole::Operator => true,
            ChannelSenderRole::Guest => false,
        }
    }
}

/// What a channel command asks of its sender.
#[derive(Debug, Clone, Copy, PartialEq, Eq, Structural)]
pub enum CommandPrivilege {
    /// Nothing: anybody may run it.
    Public,
    /// To be an operator in a proven direct chat.
    OperatorDirect,
}

/// The role of a sender: an operator where the account is known, the sender is identified
/// and the account's list holds exactly that ID; otherwise a guest.
///
/// What counts as the same ID and as no ID is this library's reading of "exact platform
/// sender IDs" and "an unidentified sender": IDs are compared character by character, with
/// no trimming and no case folding, and a blank ID identifies nobody.
pub open spec fn role_of(
    operators: Option<Seq<String>>,
    sender_id: Option<Seq<char>>,
) -> ChannelSenderRole {
    match (operators, sender_id) {
        (Some(list), Some(id)) => if !blank(id) && lists(list, id) {
            ChannelSenderRole::Operator
        } else {
            ChannelSenderRole::Guest
        },
        _ => ChannelSenderRole::Guest,
    }
}

/// The entries of an optional list.
pub open spec fn opt_list(list: Option<&[String]>) -> Option<Seq<String>> {
    match list {
        Some(entries) => Some(entries@),
        None => None,
    }
}

/// Resolve a channel sender's privilege level for an account.
///
/// Passing the channel access gate is not enough: in a group chat every member clears that
/// gate, so privilege is decided by the account's explicit `operators` list, which is
/// `None` where no registry knows the account.
///
/// Fail-closed at every step: an unknown account, a missing registry or an unidentified
/// sender all resolve to [`ChannelSenderRole::Guest`].
pub fn resolve_sender_role(operators: Option<&[String]>, sender_id: Option<&str>) -> (r:
    ChannelSenderRole)
    ensures
        r == role_of(opt_list(operators), opt_str(sender_id)),
{
    match (operators, sender_id) {
        (Some(list), Some(id)) => {
            if !text::trim(id).is_empty() && lists_text(list, id) {
                ChannelSenderRole::Operator
            } else {
                ChannelSenderRole::Guest
            }
        },
        _ => ChannelSenderRole::Guest,
    }
}

/// A turn is trusted where an operator writes in a proven direct chat.
pub open spec fn trusted_turn(role: ChannelSenderRole, shared_chat: bool) -> bool {
    role == ChannelSenderRole::Operator && !shared_chat
}

/// Whether a turn is trusted.
pub fn is_trusted_channel_turn(role: ChannelSenderRole, reply_to: &ChannelReplyTarget) -> (r: bool)
    ensures
        r == trusted_turn(role, reply_to.shared_chat),
{
    role.is_operator() && !is_shared_channel_target(reply_to)
}

/// Whether a command may run: a public one always, any other in a trusted turn only.
pub fn is_channel_command_authorized(
    privilege: CommandPrivilege,
    role: ChannelSenderRole,
    reply_to: &ChannelReplyTarget,
) -> (r: bool)
    ensures
        r == (privilege == CommandPrivilege::Public || trusted_turn(role, reply_to.shared_chat)),
{
    match privilege {
        CommandPrivilege::Public => true,
        CommandPrivilege::OperatorDirect => is_trusted_channel_turn(role, reply_to),
    }
}

/// Whether `sender_id` may run privileged actions from this conversation.
pub fn is_sender_authorized_for_target(
    operators: Option<&[String]>,
    reply_to: &ChannelReplyTarget,
    sender_id: Option<&str>,
) -> (r: bool)
    ensures
        r == trusted_turn(role_of(opt_list(operators), opt_str(sender_id)), reply_to.shared_chat),
{
    let role = resolve_sender_role(operators, sender_id);
    is_trusted_channel_turn(role, reply_to)
}

/// What follows the refused action's name in a denial.
pub const DENIAL: &'static str = " is restricted to this bot's operators in direct chats. \
         Shared chats and chats that cannot be verified as direct are denied.\n\n\
         Open a direct chat first. If you own this moltis instance and are still denied, add yourself under \
         Settings → Channels → (your account) → Edit → Operators in the web UI, \
         or set `operators` for the account in moltis.toml. Entries must be exact \
         platform sender IDs.";

/// What introduces the sender's own ID in a denial.
pub const SENDER_ID_NOTE: &'static str = "\n\nYour sender ID here is: ";

/// The denial of an action, with the sender's ID where the sender has one.
pub open spec fn denial(action: Seq<char>, sender_id: Option<Seq<char>>) -> Seq<char> {
    let message = action + DENIAL@;
    match sender_id {
        Some(id) => if blank(id) {
            message
        } else {
            message + SENDER_ID_NOTE@ + trimmed(id)
        },
        None => message,
    }
}

/// Denial shown when a non-operator attempts a privileged action.
///
/// `action` names what was refused, e.g. `"/sh"` or `"Shell access"`.
///
/// The sender's own platform ID is echoed back because `operators` entries must be exact
/// platform IDs: an owner who has not set the list yet is locked out of their own bot and
/// would otherwise have to go and find their ID by hand. It is the sender's own
/// already-public identifier on that platform, so this discloses nothing they could not
/// read off their own profile.
pub fn operator_denied_message(action: &str, sender_id: Option<&str>) -> (r: String)
    ensures
        r@ == denial(action@, opt_str(sender_id)),
{
    let mut message = text::joined(action, DENIAL);
    if let Some(id) = sender_id {
        let id = text::trim(id);
        if !id.is_empty() {
            message.append(SENDER_ID_NOTE);
            message.append(id);
        }
    }
    message
}

/// Privilege fails closed: without an account's list, without a sender ID, with a blank
/// one or with an empty list, nobody is an operator.
pub proof fn privilege_fails_closed(operators: Option<Seq<String>>, sender_id: Option<Seq<char>>)
    requires
        operators is None || sender_id is None || blank(sender_id->0) || operators->0.len() == 0,
    ensures
        role_of(operators, sender_id) == ChannelSenderRole::Guest,
{
}

/// Whoever is an operator stands in the account's list under exactly their own ID.
pub proof fn operators_are_listed(operators: Option<Seq<String>>, sender_id: Option<Seq<char>>)
    requires
        role_of(operators, sender_id) == ChannelSenderRole::Operator,
    ensures
        operators is Some,
        sender_id is Some,
        lists(operators->0, sender_id->0),
{
}

/// No role makes a turn in a shared chat trusted, and no chat makes a guest's turn trusted.
pub proof fn shared_chats_and_guests_are_untrusted(role: ChannelSenderRole, shared_chat: bool)
    ensures
        !trusted_turn(role, true),
        !trusted_turn(ChannelSenderRole::Guest, shared_chat),
{
}

/// A sender whose ID stands in the account's list, wherever it stands, is an operator,
/// unless the ID is blank.
pub proof fn listed_senders_are_operators(operators: &[String], sender_id: &str, i: int, r: ChannelSenderRole)
    requires
        0 <= i < operators@.len(),
        operators@[i]@ == sender_id@,
        !blank(sender_id@),
        call_ensures(resolve_sender_role, (Some(operators), Some(sender_id)), r),
    ensures
        r == ChannelSenderRole::Operator,
{
}

/// A sender whose ID is none of the list's is a guest, and so is everybody where the
/// account or the sender is not known.
pub proof fn other_senders_are_guests(
    operators: Option<&[String]>,
    sender_id: Option<&str>,
    r: ChannelSenderRole,
)
    requires
        operators is Some && sender_id is Some ==> forall|i: int|
            0 <= i < operators->0@.len() ==> (#[trigger] operators->0@[i])@ != sender_id->0@,
        call_ensures(resolve_sender_role, (operators, sender_id), r),
    ensures
        r == ChannelSenderRole::Guest,
{
}

/// An operator in a chat that is not shared is trusted, and nobody else anywhere.
pub proof fn operators_are_trusted_in_direct_chats(
    role: ChannelSenderRole,
    reply_to: &ChannelReplyTarget,
    r: bool,
)
    requires
        call_ensures(is_trusted_channel_turn, (role, reply_to), r),
    ensures
        r <==> role == ChannelSenderRole::Operator && !reply_to.shared_chat,
        trusted_turn(role, reply_to.shared_chat) == r,
{
}

/// A denial is the refused action's name and always the same words; an ID that is not blank
/// comes after them without the white space around it, and changes nothing before it.
pub proof fn denials_name_the_action_and_the_sender(
    action: &str,
    sender_id: Option<&str>,
    r: String,
)
    requires
        call_ensures(operator_denied_message, (action, sender_id), r),
    ensures
        (action@ + DENIAL@).is_prefix_of(r@),
        sender_id is None || blank(sender_id->0@) ==> r@.len() == action@.len() + DENIAL@.len(),
        sender_id is Some && !blank(sender_id->0@) ==> r@.skip(
            (action@.len() + DENIAL@.len()) as int,
        ) == SENDER_ID_NOTE@ + trimmed(sender_id->0@),
        denial(action@, opt_str(sender_id)) == r@,
{
    if sender_id is Some && !blank(sender_id->0@) {
        assert(r@.skip((action@.len() + DENIAL@.len()) as int) =~= SENDER_ID_NOTE@ + trimmed(
            sender_id->0@,
        ));
    }
}

} // verus!
